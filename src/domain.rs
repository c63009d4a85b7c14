//! The trusted domain values. Each has a private representation and a single
//! validating constructor, so every value that exists is well formed.
use vstd::prelude::*;

use crate::instant::Timestamp;
use crate::text::{dec_text, decimal_u16, parse_u16, trim_ws, trimmed};

verus! {

/// Why a record could not become a [`User`].
#[derive(Debug, Clone, Copy, PartialEq, Eq)]
pub enum AclError {
    /// A required field was absent; holds the field's name.
    Missing(&'static str),
    UsernameEmpty,
    InvalidEmail,
    InvalidAge,
    InvalidCreatedAt,
}

impl AclError {
    /// The error's message.
    pub fn message(&self) -> (r: String)
        ensures
            r@ == self.message_spec(),
    {
        match self {
            AclError::Missing(field) => {
                let mut m = String::from_str("missing field: ");
                m.append(field);
                m
            },
            AclError::UsernameEmpty => String::from_str("username empty"),
            AclError::InvalidEmail => String::from_str("invalid email"),
            AclError::InvalidAge => String::from_str("invalid age"),
            AclError::InvalidCreatedAt => String::from_str("invalid created_at"),
        }
    }

    pub open spec fn message_spec(&self) -> Seq<char> {
        match self {
            AclError::Missing(field) => "missing field: "@ + field@,
            AclError::UsernameEmpty => "username empty"@,
            AclError::InvalidEmail => "invalid email"@,
            AclError::InvalidAge => "invalid age"@,
            AclError::InvalidCreatedAt => "invalid created_at"@,
        }
    }
}

/// A user name: any text that is not blank once trimmed. The text is kept
/// as it was given, untrimmed.
#[derive(Debug, PartialEq, Eq, PartialOrd, Ord)]
pub struct Username(String);

impl Clone for Username {
    fn clone(&self) -> (r: Username)
        ensures
            r@ == self@,
    {
        proof {
            use_type_invariant(self);
        }
        Username(self.0.clone())
    }
}

impl View for Username {
    type V = Seq<char>;

    closed spec fn view(&self) -> Seq<char> {
        self.0@
    }
}

impl Username {
    #[verifier::type_invariant]
    spec fn inv(self) -> bool {
        trimmed(self.0@).len() > 0
    }

    /// Accepts `s` exactly when it holds a character that is not white space.
    pub fn new(s: &str) -> (r: Result<Username, AclError>)
        ensures
            trimmed(s@).len() == 0 <==> r == Err::<Username, AclError>(AclError::UsernameEmpty),
            trimmed(s@).len() > 0 <==> (r matches Ok(u) && u@ == s@),
    {
        if trim_ws(s).is_empty() {
            return Err(AclError::UsernameEmpty);
        }
        Ok(Username(s.to_owned()))
    }

    pub fn as_str(&self) -> (r: &str)
        ensures
            r@ == self@,
            trimmed(r@).len() > 0,
    {
        proof {
            use_type_invariant(self);
        }
        self.0.as_str()
    }
}

/// The age that `s` denotes: its trimmed text read as a `u16`, when that
/// lies in `1..=255`.
pub open spec fn age_value(s: Seq<char>) -> Option<nat> {
    match decimal_u16(trimmed(s)) {
        Some(n) => if 1 <= n <= 255 {
            Some(n as nat)
        } else {
            None
        },
        None => None,
    }
}

/// An age in years, from 1 to 255.
#[derive(Debug, Clone, Copy, PartialEq, Eq, PartialOrd, Ord)]
pub struct Age(u8);

impl View for Age {
    type V = nat;

    closed spec fn view(&self) -> nat {
        self.0 as nat
    }
}

impl Age {
    #[verifier::type_invariant]
    spec fn inv(self) -> bool {
        self.0 != 0
    }

    /// Every age lies in `1..=255`.
    pub open spec fn wf(self) -> bool {
        1 <= self@ <= 255
    }

    /// Reads an age from text, ignoring surrounding white space.
    pub fn parse_str(s: &str) -> (r: Result<Age, AclError>)
        ensures
            age_value(s@) is None <==> r == Err::<Age, AclError>(AclError::InvalidAge),
            age_value(s@) is Some <==> (r matches Ok(a) && a.wf() && a@ == age_value(s@)->0),
    {
        match parse_u16(trim_ws(s)) {
            Some(n) => {
                if n == 0 || n > 255 {
                    Err(AclError::InvalidAge)
                } else {
                    Ok(Age(n as u8))
                }
            },
            None => Err(AclError::InvalidAge),
        }
    }

    pub fn get(self) -> (r: u8)
        ensures
            r as nat == self@,
            1 <= r,
    {
        proof {
            use_type_invariant(self);
        }
        self.0
    }

    /// The age in decimal notation.
    pub fn to_text(self) -> (r: String)
        ensures
            r@ == dec_text(self@),
    {
        crate::text::u8_text(self.0)
    }
}

/// Whether the `email_address` crate accepts `s` as an address.
pub uninterp spec fn email_valid(s: Seq<char>) -> bool;

/// Relies on `email_address::EmailAddress::is_valid`: a purely syntactic
/// check of the local part and the domain, depending on the text alone.
#[verifier::external_body]
fn email_is_valid(s: &str) -> (r: bool)
    ensures
        r == email_valid(s@),
{
    email_address::EmailAddress::is_valid(s)
}

/// A syntactically valid email address, kept as it was given (the parser
/// keeps the text of the addresses it accepts verbatim).
#[derive(Debug, PartialEq, Eq, PartialOrd, Ord)]
pub struct Email(String);

impl Clone for Email {
    fn clone(&self) -> (r: Email)
        ensures
            r@ == self@,
    {
        proof {
            use_type_invariant(self);
        }
        Email(self.0.clone())
    }
}

impl View for Email {
    type V = Seq<char>;

    closed spec fn view(&self) -> Seq<char> {
        self.0@
    }
}

impl Email {
    #[verifier::type_invariant]
    spec fn inv(self) -> bool {
        email_valid(self.0@)
    }

    pub open spec fn wf(self) -> bool {
        email_valid(self@)
    }

    pub fn parse(s: &str) -> (r: Result<Email, AclError>)
        ensures
            !email_valid(s@) <==> r == Err::<Email, AclError>(AclError::InvalidEmail),
            email_valid(s@) <==> (r matches Ok(e) && e.wf() && e@ == s@),
    {
        if email_is_valid(s) {
            Ok(Email(s.to_owned()))
        } else {
            Err(AclError::InvalidEmail)
        }
    }

    pub fn as_str(&self) -> (r: &str)
        ensures
            r@ == self@,
            email_valid(r@),
    {
        proof {
            use_type_invariant(self);
        }
        self.0.as_str()
    }
}

/// A validated user. All four parts come from their validating constructors.
#[derive(Debug, Clone, PartialEq, Eq)]
pub struct User {
    pub username: Username,
    pub age: Age,
    pub email: Email,
    pub created_at: Timestamp,
}

impl User {
    pub open spec fn wf(self) -> bool {
        self.age.wf() && self.email.wf() && trimmed(self.username@).len() > 0
    }
}

} // verus!
