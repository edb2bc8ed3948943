use socials_backend::config::AppMode;
use socials_backend::errors::ApiError;
use socials_backend::ids::{parse_uid, Uid};

#[test]
fn parse_uid_reads_the_two_halves() {
    let r = parse_uid(b"00000000-0000-0001-0000-000000000002");
    assert_eq!(r, Ok(Uid { hi: 1, lo: 2 }));
}

#[test]
fn parse_uid_exact_value() {
    let r = parse_uid(b"deadbeef-0000-0000-0000-00000000002a");
    assert_eq!(r, Ok(Uid { hi: 0xdeadbeef_00000000, lo: 0x2a }));
}

#[test]
fn parse_uid_accepts_upper_case_digits() {
    let r = parse_uid(b"DEADBEEF-0000-0000-0000-00000000002A");
    assert_eq!(r, Ok(Uid { hi: 0xdeadbeef_00000000, lo: 0x2a }));
}

#[test]
fn parse_uid_maximum_value() {
    let r = parse_uid(b"ffffffff-ffff-ffff-ffff-ffffffffffff");
    assert_eq!(r, Ok(Uid { hi: u64::MAX, lo: u64::MAX }));
}

#[test]
fn parse_uid_rejects_short_text() {
    assert_eq!(parse_uid(b"00000000-0000-0001-0000-00000000000"), Err(ApiError::Validation));
}

#[test]
fn parse_uid_rejects_bad_digit() {
    assert_eq!(parse_uid(b"g0000000-0000-0001-0000-000000000002"), Err(ApiError::Validation));
}

#[test]
fn parse_uid_rejects_misplaced_hyphen() {
    assert_eq!(parse_uid(b"0000000-00000-0001-0000-000000000002"), Err(ApiError::Validation));
}

#[test]
fn parse_uid_rejects_empty_text() {
    assert_eq!(parse_uid(b""), Err(ApiError::Validation));
}

#[test]
fn mode_prod_parses() {
    assert_eq!(AppMode::parse(&b"prod".to_vec()), Ok(AppMode::Prod));
}

#[test]
fn mode_dev_parses() {
    assert_eq!(AppMode::parse(&b"dev".to_vec()), Ok(AppMode::Dev));
}

#[test]
fn unrecognized_mode_fails_loudly() {
    assert_eq!(AppMode::parse(&b"staging".to_vec()), Err(ApiError::Validation));
    assert_eq!(AppMode::parse(&b"".to_vec()), Err(ApiError::Validation));
}

#[test]
fn config_keeps_its_arguments() {
    let cfg = socials_backend::config::AppConfig::new(socials_backend::config::AppArgs {
        mode: AppMode::Dev,
    });
    assert!(matches!(cfg.args.mode, AppMode::Dev));
}

#[test]
fn errors_describe_themselves() {
    assert_eq!(ApiError::Validation.describe(), "validation error");
    assert_eq!(ApiError::NotFound.describe(), "not found");
    assert_eq!(ApiError::Upstream.describe(), "upstream error");
}
