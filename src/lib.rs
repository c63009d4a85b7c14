//! A validating boundary between a loosely typed user record and a domain
//! model whose values are well formed by construction.
mod acl;
mod domain;
mod instant;
mod text;
mod txn;

pub use acl::{
    created_at_encoding, domain_error, is_dto_of, is_user_of, lemma_created_at_round_trip,
    lemma_missing_before_invalid, lemma_missing_name_first, lemma_user_round_trip, Acl, UserDto,
};
pub use domain::{age_value, email_valid, AclError, Age, Email, User, Username};
pub use instant::{
    loose_instant, parse_loose_time, resolve_text_outcome, rfc3339_instant, text_instant,
    unix_in_range, utc_formatted_instant, has_reading, is_instant_reading, LooseTime, Timestamp,
    FALLBACK_FORMAT, NANOS_PER_SECOND,
    MAX_UNIX_SECONDS, MIN_UNIX_SECONDS,
};
pub use text::{dec_text, decimal_u16, is_white_space, trimmed};
pub use txn::TxnFetch;
