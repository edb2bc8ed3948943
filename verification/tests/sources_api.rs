use socials_backend::errors::ApiError;
use socials_backend::ids::Uid;
use socials_backend::platform::SocialPlatform;
use socials_backend::sources::{SocialSource, SocialSourceCreate};
use socials_backend::store::{
    create_social_sources, get_social_source, get_social_sources, remove_social_sources,
    update_social_source, Db,
};

fn empty_db() -> Db {
    Db::new(Vec::new())
}

fn source(id_lo: u64, url: &[u8]) -> SocialSource {
    SocialSource {
        id: Uid { hi: 0, lo: id_lo },
        platform: SocialPlatform::Vk,
        url: url.to_vec(),
        metadata: b"m".to_vec(),
    }
}

fn id_text(n: u64) -> String {
    uuid::Uuid::from_u64_pair(0, n).hyphenated().to_string()
}

#[test]
fn listing_returns_every_source() {
    let mut db = empty_db();
    db.sources.push(source(1, b"u1"));
    db.sources.push(source(2, b"u2"));
    let all = get_social_sources(&db);
    assert_eq!(all.len(), 2);
    assert_eq!(all[0].url, b"u1".to_vec());
    assert_eq!(all[1].url, b"u2".to_vec());
}

#[test]
fn create_is_a_direct_transform_of_the_shape() {
    let mut db = empty_db();
    let c = SocialSourceCreate {
        platform: SocialPlatform::Youtube,
        url: b"https://example.invalid/channel".to_vec(),
        metadata: b"{}".to_vec(),
    };
    let v = create_social_sources(&mut db, &c).unwrap();
    assert!(matches!(v.platform, SocialPlatform::Youtube));
    assert_eq!(v.url, b"https://example.invalid/channel".to_vec());
    assert_eq!(v.metadata, b"{}".to_vec());

    let text = uuid::Uuid::from_u64_pair(v.id.hi, v.id.lo).hyphenated().to_string();
    let fetched = get_social_source(&db, text.as_bytes()).unwrap().unwrap();
    assert_eq!(fetched.id, v.id);
    assert_eq!(fetched.url, v.url);
}

#[test]
fn full_replace_patch_overwrites_content_and_keeps_the_id() {
    let mut db = empty_db();
    db.sources.push(source(1, b"u1"));
    let c = SocialSourceCreate {
        platform: SocialPlatform::Telegram,
        url: b"u2".to_vec(),
        metadata: Vec::new(),
    };
    let v = update_social_source(&mut db, id_text(1).as_bytes(), c).unwrap();
    assert_eq!(v.id, Uid { hi: 0, lo: 1 });
    assert!(matches!(v.platform, SocialPlatform::Telegram));
    assert_eq!(v.url, b"u2".to_vec());
    assert_eq!(v.metadata, Vec::<u8>::new());

    let stored = get_social_source(&db, id_text(1).as_bytes()).unwrap().unwrap();
    assert_eq!(stored.url, b"u2".to_vec());
    assert_eq!(stored.id, Uid { hi: 0, lo: 1 });
}

#[test]
fn patch_of_missing_source_is_not_found() {
    let mut db = empty_db();
    let c = SocialSourceCreate {
        platform: SocialPlatform::Telegram,
        url: b"u2".to_vec(),
        metadata: Vec::new(),
    };
    let r = update_social_source(&mut db, id_text(9).as_bytes(), c);
    assert_eq!(r.err(), Some(ApiError::NotFound));
}

#[test]
fn delete_by_id_leaves_the_others() {
    let mut db = empty_db();
    db.sources.push(source(1, b"u1"));
    db.sources.push(source(2, b"u2"));
    let d = remove_social_sources(&mut db, id_text(1).as_bytes()).unwrap();
    assert_eq!(d.deleted_count, 1);
    let left = get_social_sources(&db);
    assert_eq!(left.len(), 1);
    assert_eq!(left[0].id, Uid { hi: 0, lo: 2 });
    assert_eq!(left[0].url, b"u2".to_vec());
}

#[test]
fn delete_of_missing_source_removes_zero() {
    let mut db = empty_db();
    db.sources.push(source(1, b"u1"));
    let d = remove_social_sources(&mut db, id_text(3).as_bytes()).unwrap();
    assert_eq!(d.deleted_count, 0);
    assert_eq!(get_social_sources(&db).len(), 1);
}

#[test]
fn malformed_source_id_is_a_validation_error() {
    let db = empty_db();
    assert_eq!(get_social_source(&db, b"nope").err(), Some(ApiError::Validation));
}
