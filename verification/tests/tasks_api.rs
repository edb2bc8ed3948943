use socials_backend::bots::{Bot, BotStatus};
use socials_backend::errors::ApiError;
use socials_backend::ids::Uid;
use socials_backend::platform::SocialPlatform;
use socials_backend::store::{
    create_task, get_task, get_task_types, get_tasks, remove_task, update_task, Db,
};
use socials_backend::tasks::{BotTaskCreate, BotTaskQuery, BotTaskUpdate, TaskStatus, TaskType};

fn seeded_db() -> Db {
    let catalog = vec![
        TaskType { name: b"like".to_vec() },
        TaskType { name: b"repost".to_vec() },
    ];
    let mut db = Db::new(catalog);
    db.bots.push(Bot {
        id: Uid { hi: 0, lo: 7 },
        platform: SocialPlatform::Telegram,
        access_token: b"tok".to_vec(),
        username: b"owner".to_vec(),
        status: BotStatus::Active,
    });
    db
}

fn id_text(n: u64) -> String {
    uuid::Uuid::from_u64_pair(0, n).hyphenated().to_string()
}

#[test]
fn task_types_catalog_lists_whole() {
    let db = seeded_db();
    let types = get_task_types(&db);
    assert_eq!(types.len(), 2);
    assert_eq!(types[0].name, b"like".to_vec());
    assert_eq!(types[1].name, b"repost".to_vec());
}

#[test]
fn create_task_enriches_from_the_owning_bot() {
    let mut db = seeded_db();
    let req = BotTaskCreate {
        bot_id: Uid { hi: 0, lo: 7 },
        task_type: b"like".to_vec(),
        payload: b"{\"count\":3}".to_vec(),
    };
    let t = create_task(&mut db, &req).unwrap();
    assert_eq!(t.bot_id, Uid { hi: 0, lo: 7 });
    assert_eq!(t.platform, SocialPlatform::Telegram);
    assert_eq!(t.task_type, b"like".to_vec());
    assert_eq!(t.payload, b"{\"count\":3}".to_vec());
    assert!(matches!(t.status, TaskStatus::Pending));

    let text = uuid::Uuid::from_u64_pair(t.id.hi, t.id.lo).hyphenated().to_string();
    let fetched = get_task(&db, text.as_bytes()).unwrap().unwrap();
    assert_eq!(fetched.id, t.id);
    assert_eq!(fetched.payload, t.payload);
}

#[test]
fn create_task_with_dangling_bot_reference_persists_nothing() {
    let mut db = seeded_db();
    let req = BotTaskCreate {
        bot_id: Uid { hi: 0, lo: 999 },
        task_type: b"like".to_vec(),
        payload: Vec::new(),
    };
    let r = create_task(&mut db, &req);
    assert_eq!(r.err(), Some(ApiError::NotFound));
    assert_eq!(get_tasks(&db, None).len(), 0);
}

#[test]
fn create_task_with_unknown_type_persists_nothing() {
    let mut db = seeded_db();
    let req = BotTaskCreate {
        bot_id: Uid { hi: 0, lo: 7 },
        task_type: b"dance".to_vec(),
        payload: Vec::new(),
    };
    let r = create_task(&mut db, &req);
    assert_eq!(r.err(), Some(ApiError::Validation));
    assert_eq!(get_tasks(&db, None).len(), 0);
}

#[test]
fn tasks_list_filters_by_owner() {
    let mut db = seeded_db();
    let req1 = BotTaskCreate {
        bot_id: Uid { hi: 0, lo: 7 },
        task_type: b"like".to_vec(),
        payload: b"one".to_vec(),
    };
    let req2 = BotTaskCreate {
        bot_id: Uid { hi: 0, lo: 7 },
        task_type: b"repost".to_vec(),
        payload: b"two".to_vec(),
    };
    create_task(&mut db, &req1).unwrap();
    create_task(&mut db, &req2).unwrap();

    assert_eq!(get_tasks(&db, None).len(), 2);

    let mut q = BotTaskQuery::new();
    q.bot_id = Some(Uid { hi: 0, lo: 7 });
    assert_eq!(get_tasks(&db, Some(&q)).len(), 2);

    q.bot_id = Some(Uid { hi: 0, lo: 8 });
    assert_eq!(get_tasks(&db, Some(&q)).len(), 0);
}

#[test]
fn sparse_task_patch_touches_only_the_set_field() {
    let mut db = seeded_db();
    let req = BotTaskCreate {
        bot_id: Uid { hi: 0, lo: 7 },
        task_type: b"like".to_vec(),
        payload: b"before".to_vec(),
    };
    let t = create_task(&mut db, &req).unwrap();
    let text = uuid::Uuid::from_u64_pair(t.id.hi, t.id.lo).hyphenated().to_string();

    let upd = BotTaskUpdate { payload: None, status: Some(TaskStatus::Running) };
    let merged = update_task(&mut db, text.as_bytes(), upd).unwrap();
    assert_eq!(merged.id, t.id);
    assert_eq!(merged.payload, b"before".to_vec());
    assert!(matches!(merged.status, TaskStatus::Running));
    assert_eq!(merged.task_type, b"like".to_vec());
    assert_eq!(merged.platform, SocialPlatform::Telegram);
}

#[test]
fn task_patch_of_missing_id_is_not_found() {
    let mut db = seeded_db();
    let upd = BotTaskUpdate { payload: Some(b"x".to_vec()), status: None };
    let r = update_task(&mut db, id_text(123).as_bytes(), upd);
    assert_eq!(r.err(), Some(ApiError::NotFound));
}

#[test]
fn remove_task_deletes_exactly_that_task() {
    let mut db = seeded_db();
    let req1 = BotTaskCreate {
        bot_id: Uid { hi: 0, lo: 7 },
        task_type: b"like".to_vec(),
        payload: b"one".to_vec(),
    };
    let req2 = BotTaskCreate {
        bot_id: Uid { hi: 0, lo: 7 },
        task_type: b"repost".to_vec(),
        payload: b"two".to_vec(),
    };
    let t1 = create_task(&mut db, &req1).unwrap();
    let t2 = create_task(&mut db, &req2).unwrap();

    let text1 = uuid::Uuid::from_u64_pair(t1.id.hi, t1.id.lo).hyphenated().to_string();
    let d = remove_task(&mut db, text1.as_bytes()).unwrap();
    assert_eq!(d.deleted_count, 1);

    let left = get_tasks(&db, None);
    assert_eq!(left.len(), 1);
    assert_eq!(left[0].id, t2.id);
    assert_eq!(left[0].payload, b"two".to_vec());
}

#[test]
fn remove_task_of_missing_id_removes_zero() {
    let mut db = seeded_db();
    let d = remove_task(&mut db, id_text(55).as_bytes()).unwrap();
    assert_eq!(d.deleted_count, 0);
}
