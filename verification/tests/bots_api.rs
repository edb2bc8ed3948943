use socials_backend::bots::{Bot, BotCreate, BotQuery, BotStatus, BotUpdate};
use socials_backend::errors::ApiError;
use socials_backend::ids::Uid;
use socials_backend::platform::{SocialPlatform, SocialProfile, TokenVerdict};
use socials_backend::store::{
    check_by_token, create_bot, get_bot, get_bots, remove_bot, update_bot, Db,
};

fn empty_db() -> Db {
    Db::new(Vec::new())
}

fn bot(id_lo: u64, platform: SocialPlatform, token: &[u8]) -> Bot {
    Bot {
        id: Uid { hi: 0, lo: id_lo },
        platform,
        access_token: token.to_vec(),
        username: b"user".to_vec(),
        status: BotStatus::Active,
    }
}

fn id_text(n: u64) -> String {
    uuid::Uuid::from_u64_pair(0, n).hyphenated().to_string()
}

#[test]
fn empty_filter_lists_every_bot() {
    let mut db = empty_db();
    db.bots.push(bot(1, SocialPlatform::Vk, b"a"));
    db.bots.push(bot(2, SocialPlatform::Telegram, b"b"));
    db.bots.push(bot(3, SocialPlatform::Vk, b"c"));

    let all = get_bots(&db, None);
    assert_eq!(all.len(), 3);

    let q = BotQuery::new();
    let all_again = get_bots(&db, Some(&q));
    assert_eq!(all_again.len(), 3);
    assert_eq!(all_again[0].id, Uid { hi: 0, lo: 1 });
    assert_eq!(all_again[2].id, Uid { hi: 0, lo: 3 });
}

#[test]
fn filter_matches_on_every_set_field() {
    let mut db = empty_db();
    db.bots.push(bot(1, SocialPlatform::Vk, b"a"));
    db.bots.push(bot(2, SocialPlatform::Telegram, b"b"));
    db.bots.push(bot(3, SocialPlatform::Vk, b"c"));

    let mut q = BotQuery::new();
    q.platform = Some(SocialPlatform::Vk);
    let vks = get_bots(&db, Some(&q));
    assert_eq!(vks.len(), 2);
    assert_eq!(vks[0].id.lo, 1);
    assert_eq!(vks[1].id.lo, 3);

    q.id = Some(Uid { hi: 0, lo: 3 });
    let one = get_bots(&db, Some(&q));
    assert_eq!(one.len(), 1);
    assert_eq!(one[0].id.lo, 3);
}

#[test]
fn create_accepted_then_get_returns_the_record() {
    let mut db = empty_db();
    let req = BotCreate { platform: SocialPlatform::Vk, access_token: b"good".to_vec() };
    let verdict = TokenVerdict::Accepted(SocialProfile { username: b"alice".to_vec() });
    let created = create_bot(&mut db, &req, verdict).unwrap();

    assert!(matches!(created.platform, SocialPlatform::Vk));
    assert_eq!(created.access_token, b"good".to_vec());
    assert_eq!(created.username, b"alice".to_vec());
    assert!(matches!(created.status, BotStatus::Active));

    let text = uuid::Uuid::from_u64_pair(created.id.hi, created.id.lo).hyphenated().to_string();
    let fetched = get_bot(&db, text.as_bytes()).unwrap().unwrap();
    assert_eq!(fetched.id, created.id);
    assert_eq!(fetched.platform, created.platform);
    assert_eq!(fetched.access_token, created.access_token);
    assert_eq!(fetched.username, created.username);
    assert_eq!(fetched.status, created.status);
}

#[test]
fn rejected_token_persists_nothing() {
    let mut db = empty_db();
    let req = BotCreate { platform: SocialPlatform::Vk, access_token: b"bad".to_vec() };
    let r = create_bot(&mut db, &req, TokenVerdict::Rejected);
    assert_eq!(r.err(), Some(ApiError::Validation));
    assert_eq!(get_bots(&db, None).len(), 0);
}

#[test]
fn unreachable_platform_persists_nothing() {
    let mut db = empty_db();
    let req = BotCreate { platform: SocialPlatform::Vk, access_token: b"any".to_vec() };
    let r = create_bot(&mut db, &req, TokenVerdict::Unreachable);
    assert_eq!(r.err(), Some(ApiError::Upstream));
    assert_eq!(get_bots(&db, None).len(), 0);
}

#[test]
fn check_by_token_is_a_dry_run() {
    let rejected = check_by_token(SocialPlatform::Vk, TokenVerdict::Rejected);
    assert_eq!(rejected.err(), Some(ApiError::Validation));

    let accepted = check_by_token(
        SocialPlatform::Vk,
        TokenVerdict::Accepted(SocialProfile { username: b"alice".to_vec() }),
    );
    assert_eq!(accepted.unwrap().username, b"alice".to_vec());

    let down = check_by_token(SocialPlatform::Vk, TokenVerdict::Unreachable);
    assert_eq!(down.err(), Some(ApiError::Upstream));
}

#[test]
fn sparse_patch_touches_only_the_set_field() {
    let mut db = empty_db();
    db.bots.push(bot(1, SocialPlatform::Vk, b"a"));
    let upd = BotUpdate {
        platform: None,
        access_token: None,
        username: Some(b"renamed".to_vec()),
        status: None,
    };
    let merged = update_bot(&mut db, id_text(1).as_bytes(), upd).unwrap();
    assert_eq!(merged.id, Uid { hi: 0, lo: 1 });
    assert_eq!(merged.username, b"renamed".to_vec());
    assert_eq!(merged.platform, SocialPlatform::Vk);
    assert_eq!(merged.access_token, b"a".to_vec());
    assert_eq!(merged.status, BotStatus::Active);

    let stored = get_bot(&db, id_text(1).as_bytes()).unwrap().unwrap();
    assert_eq!(stored.username, b"renamed".to_vec());
    assert_eq!(stored.access_token, b"a".to_vec());
}

#[test]
fn patch_of_missing_bot_is_not_found() {
    let mut db = empty_db();
    let upd = BotUpdate { platform: None, access_token: None, username: None, status: None };
    let r = update_bot(&mut db, id_text(9).as_bytes(), upd);
    assert_eq!(r.err(), Some(ApiError::NotFound));
}

#[test]
fn patch_with_malformed_id_is_a_validation_error() {
    let mut db = empty_db();
    let upd = BotUpdate { platform: None, access_token: None, username: None, status: None };
    let r = update_bot(&mut db, b"not-an-identifier", upd);
    assert_eq!(r.err(), Some(ApiError::Validation));
}

#[test]
fn delete_removes_exactly_the_matching_record() {
    let mut db = empty_db();
    db.bots.push(bot(1, SocialPlatform::Vk, b"a"));
    db.bots.push(bot(2, SocialPlatform::Telegram, b"b"));
    db.bots.push(bot(3, SocialPlatform::Vk, b"c"));

    let d = remove_bot(&mut db, id_text(2).as_bytes()).unwrap();
    assert_eq!(d.deleted_count, 1);

    let left = get_bots(&db, None);
    assert_eq!(left.len(), 2);
    assert_eq!(left[0].id.lo, 1);
    assert_eq!(left[0].access_token, b"a".to_vec());
    assert_eq!(left[1].id.lo, 3);
    assert_eq!(left[1].access_token, b"c".to_vec());
}

#[test]
fn delete_of_missing_id_removes_zero_and_is_ok() {
    let mut db = empty_db();
    db.bots.push(bot(1, SocialPlatform::Vk, b"a"));
    let d = remove_bot(&mut db, id_text(42).as_bytes()).unwrap();
    assert_eq!(d.deleted_count, 0);
    assert_eq!(get_bots(&db, None).len(), 1);
}

#[test]
fn bulk_delete_by_field_filter() {
    let mut db = empty_db();
    db.bots.push(bot(1, SocialPlatform::Vk, b"a"));
    db.bots.push(bot(2, SocialPlatform::Telegram, b"b"));
    db.bots.push(bot(3, SocialPlatform::Vk, b"c"));

    let mut q = BotQuery::new();
    q.platform = Some(SocialPlatform::Vk);
    let d = socials_backend::bots::delete_bots(&mut db.bots, &q);
    assert_eq!(d.deleted_count, 2);
    assert_eq!(db.bots.len(), 1);
    assert_eq!(db.bots[0].id.lo, 2);
}

#[test]
fn get_bot_with_malformed_id_fails_before_any_lookup() {
    let db = empty_db();
    assert_eq!(get_bot(&db, b"zz").err(), Some(ApiError::Validation));
}

#[test]
fn get_bot_missing_is_an_empty_result_not_an_error() {
    let db = empty_db();
    let r = get_bot(&db, id_text(5).as_bytes()).unwrap();
    assert!(r.is_none());
}
