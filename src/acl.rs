//! The boundary mapper: from the loose outside record to a [`User`], and back.
use vstd::prelude::*;

use crate::domain::{age_value, email_valid, AclError, Age, Email, User, Username};
use crate::instant::{loose_instant, parse_loose_time, unix_in_range, LooseTime, Timestamp};
use crate::text::{dec_text, lemma_decimal_u16_of_text, trimmed};

verus! {

/// A user record as it arrives from outside: every field may be absent and
/// none has been checked.
#[derive(Debug, Clone, PartialEq, Eq)]
pub struct UserDto {
    pub user_name: Option<String>,
    pub user_age: Option<String>,
    pub email_address: Option<String>,
    pub created_at: Option<LooseTime>,
}

/// The first problem that keeps `dto` from becoming a user, if any. Absent
/// fields come first, in the order name, email, age, time; then the values,
/// in the same order.
pub open spec fn domain_error(dto: UserDto) -> Option<AclError> {
    if dto.user_name is None {
        Some(AclError::Missing("user_name"))
    } else if dto.email_address is None {
        Some(AclError::Missing("email_address"))
    } else if dto.user_age is None {
        Some(AclError::Missing("user_age"))
    } else if dto.created_at is None {
        Some(AclError::Missing("created_at"))
    } else if trimmed(dto.user_name->0@).len() == 0 {
        Some(AclError::UsernameEmpty)
    } else if !email_valid(dto.email_address->0@) {
        Some(AclError::InvalidEmail)
    } else if age_value(dto.user_age->0@) is None {
        Some(AclError::InvalidAge)
    } else if loose_instant(dto.created_at->0) is None {
        Some(AclError::InvalidCreatedAt)
    } else {
        None
    }
}

/// The user that a record without problems becomes.
pub open spec fn is_user_of(u: User, dto: UserDto) -> bool {
    &&& u.wf()
    &&& u.username@ == dto.user_name->0@
    &&& u.email@ == dto.email_address->0@
    &&& u.age@ == age_value(dto.user_age->0@)->0
    &&& u.created_at@ == loose_instant(dto.created_at->0)->0
}

/// The record that `to_dto` writes for `u`.
pub open spec fn is_dto_of(dto: UserDto, u: User) -> bool {
    &&& dto.user_name matches Some(s) && s@ == u.username@
    &&& dto.user_age matches Some(s) && s@ == dec_text(u.age@)
    &&& dto.email_address matches Some(s) && s@ == u.email@
    &&& dto.created_at == Some(created_at_encoding(u.created_at))
}

/// The outside encoding of an instant: always whole Unix seconds.
pub open spec fn created_at_encoding(t: Timestamp) -> LooseTime {
    LooseTime::UnixSecs(t@.0)
}

pub struct Acl;

impl Acl {
    /// Validates a record into a user, reporting the first problem found.
    pub fn to_domain(dto: UserDto) -> (r: Result<User, AclError>)
        ensures
            domain_error(dto) is Some ==> r == Err::<User, AclError>(domain_error(dto)->0),
            domain_error(dto) is None <==> (r matches Ok(u) && is_user_of(u, dto)),
    {
        let username_raw = match &dto.user_name {
            Some(s) => s,
            None => return Err(AclError::Missing("user_name")),
        };
        let email_raw = match &dto.email_address {
            Some(s) => s,
            None => return Err(AclError::Missing("email_address")),
        };
        let age_raw = match &dto.user_age {
            Some(s) => s,
            None => return Err(AclError::Missing("user_age")),
        };
        let created_raw = match &dto.created_at {
            Some(t) => t,
            None => return Err(AclError::Missing("created_at")),
        };
        let username = Username::new(username_raw.as_str())?;
        let email = Email::parse(email_raw.as_str())?;
        let age = Age::parse_str(age_raw.as_str())?;
        let created_at = parse_loose_time(created_raw)?;
        Ok(User { username, age, email, created_at })
    }

    /// Writes a user back as a record: every field present, the age in
    /// decimal and the instant as whole Unix seconds.
    pub fn to_dto(user: &User) -> (r: UserDto)
        ensures
            is_dto_of(r, *user),
    {
        UserDto {
            user_name: Some(user.username.as_str().to_owned()),
            user_age: Some(user.age.to_text()),
            email_address: Some(user.email.as_str().to_owned()),
            created_at: Some(LooseTime::UnixSecs(user.created_at.unix_timestamp())),
        }
    }
}

/// Resolving the encoding that `to_dto` writes gives back the user's own
/// instant, for every instant in the range that Unix seconds resolve to and
/// with no fraction of a second (the encoding has no room for one).
pub proof fn lemma_created_at_round_trip(u: User)
    requires
        unix_in_range(u.created_at@.0),
        u.created_at@.1 == 0,
    ensures
        loose_instant(created_at_encoding(u.created_at)) == Some(u.created_at@),
{
}

/// A valid user written out by `to_dto` and read back by `to_domain` is the
/// same user again, whenever its instant is one that whole Unix seconds
/// resolve to.
pub proof fn lemma_user_round_trip(u: User, dto: UserDto)
    requires
        u.wf(),
        is_dto_of(dto, u),
        unix_in_range(u.created_at@.0),
        u.created_at@.1 == 0,
    ensures
        domain_error(dto) is None,
        is_user_of(u, dto),
{
    lemma_decimal_u16_of_text(u.age@);
    lemma_created_at_round_trip(u);
}

/// An absent field is reported before any value is looked at: a record
/// without a name fails for that, whatever else it holds.
pub proof fn lemma_missing_name_first(dto: UserDto)
    requires
        dto.user_name is None,
    ensures
        domain_error(dto) == Some(AclError::Missing("user_name")),
{
}

/// Whenever a field is absent, the error names an absent field.
pub proof fn lemma_missing_before_invalid(dto: UserDto)
    requires
        dto.user_name is None || dto.email_address is None || dto.user_age is None
            || dto.created_at is None,
    ensures
        domain_error(dto) matches Some(AclError::Missing(_)),
{
}

} // verus!
