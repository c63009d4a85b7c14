use user_acl::{
    parse_loose_time, resolve_text_outcome, Acl, AclError, Age, Email, LooseTime, Timestamp,
    TxnFetch, User, UserDto, Username, MAX_UNIX_SECONDS, MIN_UNIX_SECONDS,
};

fn dto(name: Option<&str>, age: Option<&str>, email: Option<&str>, t: Option<LooseTime>) -> UserDto {
    UserDto {
        user_name: name.map(|s| s.to_string()),
        user_age: age.map(|s| s.to_string()),
        email_address: email.map(|s| s.to_string()),
        created_at: t,
    }
}

fn sigma_at(secs: i64) -> User {
    User {
        username: Username::new("sigma").unwrap(),
        age: Age::parse_str("7").unwrap(),
        email: Email::parse("sigma@example.com").unwrap(),
        created_at: Timestamp::from_unix_timestamp(secs).unwrap(),
    }
}

fn text_time(s: &str) -> Result<Timestamp, AclError> {
    parse_loose_time(&LooseTime::Rfc3339(s.to_string()))
}

#[test]
fn dto_to_domain_success_unix() {
    let dto = UserDto {
        user_name: Some("sigma".into()),
        user_age: Some("42".into()),
        email_address: Some("sigma@example.com".into()),
        created_at: Some(LooseTime::UnixSecs(1_700_000_000)),
    };
    let u = Acl::to_domain(dto).unwrap();
    assert_eq!(u.username.as_str(), "sigma");
    assert_eq!(u.age.get(), 42);
    assert_eq!(u.email.as_str(), "sigma@example.com");
    assert!(u.created_at <= Timestamp::from_unix_timestamp(1_700_000_000).unwrap());
}

#[test]
fn dto_to_domain_success_rfc3339() {
    let dto = UserDto {
        user_name: Some("sigma".into()),
        user_age: Some("1".into()),
        email_address: Some("sigma@example.com".into()),
        created_at: Some(LooseTime::Rfc3339("2024-12-25T12:34:56Z".into())),
    };
    let u = Acl::to_domain(dto).unwrap();
    assert_eq!(u.created_at.unix_timestamp(), 1735130096);
    assert_eq!(u.created_at.nanosecond(), 0);
}

#[test]
fn dto_missing_field_fails() {
    let dto = UserDto {
        user_name: None,
        user_age: Some("10".into()),
        email_address: Some("a@b.co".into()),
        created_at: Some(LooseTime::UnixSecs(0)),
    };
    let err = Acl::to_domain(dto).unwrap_err().message();
    assert!(err.contains("missing field: user_name"));
}

#[test]
fn dto_invalid_email_fails() {
    let dto = UserDto {
        user_name: Some("sigma".into()),
        user_age: Some("10".into()),
        email_address: Some("not-an-email".into()),
        created_at: Some(LooseTime::UnixSecs(0)),
    };
    assert!(matches!(Acl::to_domain(dto), Err(AclError::InvalidEmail)));
}

#[test]
fn roundtrip_domain_to_dto() {
    let user = User {
        username: Username::new("sigma").unwrap(),
        age: Age::parse_str("7").unwrap(),
        email: Email::parse("sigma@example.com").unwrap(),
        created_at: Timestamp::from_unix_timestamp(1234567890).unwrap(),
    };
    let dto = Acl::to_dto(&user);
    assert_eq!(dto.user_name.as_deref(), Some("sigma"));
    assert_eq!(dto.user_age.as_deref(), Some("7"));
    assert_eq!(dto.email_address.as_deref(), Some("sigma@example.com"));
    assert_eq!(dto.created_at, Some(LooseTime::UnixSecs(1234567890)));
}

#[test]
fn discriminated_union_states() {
    let ok = TxnFetch::Loaded { txns: vec!["t1".into()] };
    let empty = TxnFetch::Empty;
    let err = TxnFetch::Failed { code: 503, message: "unavailable".into() };

    assert_eq!(ok.describe(), "have_txns");
    assert_eq!(empty.describe(), "no_txns");
    assert_eq!(err.describe(), "error");
}

#[test]
fn describe_ignores_payload() {
    assert_eq!(TxnFetch::Loaded { txns: vec![] }.describe(), "have_txns");
    assert_eq!(TxnFetch::Failed { code: 503, message: "x".into() }.describe(), "error");
}

#[test]
fn instant_survives_dto_round_trip() {
    for secs in [0i64, 1_700_000_000, -86_400, MIN_UNIX_SECONDS, MAX_UNIX_SECONDS] {
        let user = sigma_at(secs);
        let d = Acl::to_dto(&user);
        let back = parse_loose_time(d.created_at.as_ref().unwrap()).unwrap();
        assert_eq!(back, user.created_at);
    }
}

#[test]
fn rfc3339_input_comes_back_as_unix_seconds() {
    let d = dto(Some("sigma"), Some("30"), Some("sigma@example.com"), Some(LooseTime::Rfc3339("2023-11-14T22:13:20Z".into())));
    let u = Acl::to_domain(d).unwrap();
    let out = Acl::to_dto(&u);
    assert_eq!(out.created_at, Some(LooseTime::UnixSecs(1_700_000_000)));
    assert_eq!(parse_loose_time(out.created_at.as_ref().unwrap()).unwrap(), u.created_at);
}

#[test]
fn to_dto_fills_every_field() {
    let user = User {
        username: Username::new(" a ").unwrap(),
        age: Age::parse_str("255").unwrap(),
        email: Email::parse("a@b.co").unwrap(),
        created_at: Timestamp::from_unix_timestamp(-1).unwrap(),
    };
    let d = Acl::to_dto(&user);
    assert_eq!(d.user_name.as_deref(), Some(" a "));
    assert_eq!(d.user_age.as_deref(), Some("255"));
    assert_eq!(d.email_address.as_deref(), Some("a@b.co"));
    assert_eq!(d.created_at, Some(LooseTime::UnixSecs(-1)));
}

#[test]
fn missing_name_wins_over_invalid_email() {
    let d = dto(None, Some("10"), Some("not-an-email"), Some(LooseTime::UnixSecs(0)));
    assert!(matches!(Acl::to_domain(d), Err(AclError::Missing("user_name"))));
}

#[test]
fn missing_fields_in_order() {
    let t = || Some(LooseTime::UnixSecs(0));
    assert!(matches!(Acl::to_domain(dto(Some(""), Some("x"), None, None)), Err(AclError::Missing("email_address"))));
    assert!(matches!(Acl::to_domain(dto(Some(""), None, Some("x"), t())), Err(AclError::Missing("user_age"))));
    assert!(matches!(Acl::to_domain(dto(Some(""), Some("x"), Some("x"), None)), Err(AclError::Missing("created_at"))));
}

#[test]
fn invalid_values_in_order() {
    let bad_t = || Some(LooseTime::UnixSecs(i64::MAX));
    assert!(matches!(Acl::to_domain(dto(Some("  "), Some("0"), Some("bad"), bad_t())), Err(AclError::UsernameEmpty)));
    assert!(matches!(Acl::to_domain(dto(Some("s"), Some("0"), Some("bad"), bad_t())), Err(AclError::InvalidEmail)));
    assert!(matches!(Acl::to_domain(dto(Some("s"), Some("0"), Some("s@e.com"), bad_t())), Err(AclError::InvalidAge)));
    assert!(matches!(Acl::to_domain(dto(Some("s"), Some("9"), Some("s@e.com"), bad_t())), Err(AclError::InvalidCreatedAt)));
    let bad_text = Some(LooseTime::Rfc3339("yesterday".into()));
    assert!(matches!(Acl::to_domain(dto(Some("s"), Some("9"), Some("s@e.com"), bad_text)), Err(AclError::InvalidCreatedAt)));
}

#[test]
fn error_messages() {
    assert_eq!(AclError::Missing("user_age").message(), "missing field: user_age");
    assert_eq!(AclError::UsernameEmpty.message(), "username empty");
    assert_eq!(AclError::InvalidEmail.message(), "invalid email");
    assert_eq!(AclError::InvalidAge.message(), "invalid age");
    assert_eq!(AclError::InvalidCreatedAt.message(), "invalid created_at");
}

#[test]
fn unix_and_text_timestamps_agree() {
    let a = parse_loose_time(&LooseTime::UnixSecs(1700000000)).unwrap();
    let b = text_time("2023-11-14T22:13:20Z").unwrap();
    assert_eq!(a, b);
    assert_eq!(b.unix_timestamp(), 1700000000);
}

#[test]
fn strict_and_fallback_formats_agree() {
    let strict = text_time("2024-12-25T12:34:56Z").unwrap();
    let fallback = text_time("2024-12-25 12:34:56 UTC").unwrap();
    assert_eq!(strict.unix_timestamp(), 1735130096);
    assert_eq!(strict, fallback);
}

#[test]
fn rfc3339_offsets_and_fractions() {
    let t = text_time("2024-12-25T14:34:56.5+02:00").unwrap();
    assert_eq!(t.unix_timestamp(), 1735130096);
    assert_eq!(t.nanosecond(), 500_000_000);
    assert!(matches!(text_time("2024-12-25 12:34:56"), Err(AclError::InvalidCreatedAt)));
    assert!(matches!(text_time(""), Err(AclError::InvalidCreatedAt)));
}

#[test]
fn strict_reading_takes_precedence() {
    let r = resolve_text_outcome(Some((7, 0)), Some((5, 0))).unwrap();
    assert_eq!(r.unix_timestamp(), 7);
    let r = resolve_text_outcome(None, Some((5, 9))).unwrap();
    assert_eq!((r.unix_timestamp(), r.nanosecond()), (5, 9));
    assert!(matches!(resolve_text_outcome(None, None), Err(AclError::InvalidCreatedAt)));
}

#[test]
fn out_of_range_nanoseconds_are_no_reading() {
    let r = resolve_text_outcome(Some((7, 4_000_000_000)), Some((5, 999_999_999))).unwrap();
    assert_eq!((r.unix_timestamp(), r.nanosecond()), (5, 999_999_999));
    assert!(matches!(resolve_text_outcome(Some((7, 1_000_000_000)), None), Err(AclError::InvalidCreatedAt)));
    assert!(matches!(resolve_text_outcome(None, Some((5, u32::MAX))), Err(AclError::InvalidCreatedAt)));
}

#[test]
fn unix_seconds_range() {
    assert_eq!(Timestamp::from_unix_timestamp(MIN_UNIX_SECONDS).unwrap().unix_timestamp(), MIN_UNIX_SECONDS);
    assert_eq!(Timestamp::from_unix_timestamp(MAX_UNIX_SECONDS).unwrap().unix_timestamp(), MAX_UNIX_SECONDS);
    assert!(Timestamp::from_unix_timestamp(MIN_UNIX_SECONDS - 1).is_none());
    assert!(Timestamp::from_unix_timestamp(MAX_UNIX_SECONDS + 1).is_none());
    assert!(matches!(parse_loose_time(&LooseTime::UnixSecs(i64::MIN)), Err(AclError::InvalidCreatedAt)));
}

#[test]
fn age_boundaries() {
    assert!(matches!(Age::parse_str("0"), Err(AclError::InvalidAge)));
    assert_eq!(Age::parse_str("255").unwrap().get(), 255);
    assert!(matches!(Age::parse_str("256"), Err(AclError::InvalidAge)));
    assert!(matches!(Age::parse_str("-1"), Err(AclError::InvalidAge)));
    assert_eq!(Age::parse_str(" 42 ").unwrap().get(), 42);
    assert_eq!(Age::parse_str("1").unwrap().get(), 1);
}

#[test]
fn age_text_forms() {
    assert_eq!(Age::parse_str("+7").unwrap().get(), 7);
    assert_eq!(Age::parse_str("007").unwrap().get(), 7);
    assert!(matches!(Age::parse_str("seven"), Err(AclError::InvalidAge)));
    assert!(matches!(Age::parse_str(""), Err(AclError::InvalidAge)));
    assert!(matches!(Age::parse_str("65536"), Err(AclError::InvalidAge)));
    assert!(matches!(Age::parse_str("4 2"), Err(AclError::InvalidAge)));
    assert_eq!(Age::parse_str("42").unwrap().to_text(), "42");
}

#[test]
fn username_blank_and_kept_text() {
    assert!(matches!(Username::new(""), Err(AclError::UsernameEmpty)));
    assert!(matches!(Username::new("   "), Err(AclError::UsernameEmpty)));
    assert!(matches!(Username::new("\t\n\u{3000}"), Err(AclError::UsernameEmpty)));
    assert_eq!(Username::new(" a ").unwrap().as_str(), " a ");
}

#[test]
fn email_checks() {
    assert_eq!(Email::parse("sigma@example.com").unwrap().as_str(), "sigma@example.com");
    assert!(matches!(Email::parse("not-an-email"), Err(AclError::InvalidEmail)));
    assert!(matches!(Email::parse(""), Err(AclError::InvalidEmail)));
}

#[test]
fn user_survives_dto_round_trip() {
    let user = User {
        username: Username::new("  sigma ").unwrap(),
        age: Age::parse_str("255").unwrap(),
        email: Email::parse("sigma@example.com").unwrap(),
        created_at: Timestamp::from_unix_timestamp(-5).unwrap(),
    };
    let back = Acl::to_domain(Acl::to_dto(&user)).unwrap();
    assert_eq!(back, user);
}
