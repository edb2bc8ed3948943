//! The document store and the resource handlers.
//!
//! A [`Db`] value holds every persisted collection; the handlers below are
//! the five-operation surface each resource exposes: list by filter, get by
//! identifier, create, patch, delete by filter. Creating a bot or a task
//! runs the hydration pipeline: validation first (the platform's verdict on
//! the token, or the bot reference and the task-type catalog), then
//! enrichment, then persistence — a failed validation persists nothing.

use vstd::prelude::*;
use crate::DeleteResult;
use crate::errors::ApiError;
use crate::ids::{Uid, parse_uid, valid_uid_text, uid_of_text, random_uid};
use crate::platform::{SocialPlatform, SocialProfile, TokenVerdict};
use crate::text::clone_bytes;
use crate::bots::{
    Bot, BotView, BotCreate, BotUpdate, BotQuery, BotStatus, bot_views, bots_matching,
    bots_remaining, has_bot_id, bot_index, bot_by_id, bot_id_query, bot_hydrated, bot_merged,
    find_bots, find_bot_by_id, insert_bot, update_bot_by_id, delete_bots,
    lemma_bot_index,
};
use crate::tasks::{
    BotTask, TaskView, TaskType, TaskTypeView, BotTaskCreate, BotTaskUpdate, BotTaskQuery,
    TaskStatus, task_views, task_type_views, tasks_matching, tasks_remaining, has_task_id,
    task_index, task_by_id, task_id_query, task_hydrated, task_merged,
    catalog_has, find_tasks, find_task_by_id, insert_task, update_task_by_id, delete_tasks,
    catalog_contains, all_task_types, lemma_task_index,
};
use crate::sources::{
    SocialSource, SourceView, SocialSourceCreate, SocialSourceQuery, source_views,
    sources_remaining, has_source_id, source_index, source_by_id, source_id_query, source_created,
    find_sources, find_source_by_id, insert_source, update_source_by_id, delete_sources,
    lemma_source_index,
};
use crate::laws::{lemma_empty_bot_query_matches_all, lemma_empty_task_query_matches_all};

verus! {

/// Every persisted collection. One value of this type is the whole state
/// the handlers share; all requests read and write it.
pub struct Db {
    pub bots: Vec<Bot>,
    pub tasks: Vec<BotTask>,
    pub sources: Vec<SocialSource>,
    pub task_types: Vec<TaskType>,
}

/// The mathematical value of the store: the stored record values, in
/// stored order, per collection.
#[verifier::ext_equal]
pub struct DbView {
    pub bots: Seq<BotView>,
    pub tasks: Seq<TaskView>,
    pub sources: Seq<SourceView>,
    pub task_types: Seq<TaskTypeView>,
}

impl View for Db {
    type V = DbView;

    open spec fn view(&self) -> DbView {
        DbView {
            bots: bot_views(self.bots@),
            tasks: task_views(self.tasks@),
            sources: source_views(self.sources@),
            task_types: task_type_views(self.task_types@),
        }
    }
}

impl Db {
    /// An empty store seeded with a task-type catalog.
    pub fn new(task_types: Vec<TaskType>) -> (r: Self)
        ensures
            r@.bots.len() == 0,
            r@.tasks.len() == 0,
            r@.sources.len() == 0,
            r@.task_types == task_type_views(task_types@),
    {
        Db { bots: Vec::new(), tasks: Vec::new(), sources: Vec::new(), task_types }
    }
}

/// The record value an optional bot holds.
pub open spec fn opt_bot_view(o: Option<Bot>) -> Option<BotView> {
    match o {
        Some(b) => Some(b@),
        None => None,
    }
}

/// The record value an optional task holds.
pub open spec fn opt_task_view(o: Option<BotTask>) -> Option<TaskView> {
    match o {
        Some(t) => Some(t@),
        None => None,
    }
}

/// The record value an optional source holds.
pub open spec fn opt_source_view(o: Option<SocialSource>) -> Option<SourceView> {
    match o {
        Some(v) => Some(v@),
        None => None,
    }
}

/// List bots: every record the filter matches, in stored order; no filter
/// means the match-all filter and returns the whole collection.
pub fn get_bots(db: &Db, query: Option<&BotQuery>) -> (r: Vec<Bot>)
    ensures
        query matches Some(q) ==> bot_views(r@) == bots_matching(db@.bots, *q),
        query is None ==> bot_views(r@) == db@.bots,
{
    match query {
        Some(q) => find_bots(&db.bots, q),
        None => {
            let all = BotQuery::new();
            let r = find_bots(&db.bots, &all);
            proof {
                lemma_empty_bot_query_matches_all(db@.bots, all);
            }
            r
        },
    }
}

/// Get one bot by the textual identifier in the request path. Malformed
/// text is a validation error; a missing record is an empty result, not an
/// error.
pub fn get_bot(db: &Db, raw_id: &[u8]) -> (r: Result<Option<Bot>, ApiError>)
    ensures
        !valid_uid_text(raw_id@) ==> r == Err::<Option<Bot>, ApiError>(ApiError::Validation),
        valid_uid_text(raw_id@) ==> (r matches Ok(o) && opt_bot_view(o) == bot_by_id(
            db@.bots,
            uid_of_text(raw_id@),
        )),
{
    let id = match parse_uid(raw_id) {
        Ok(id) => id,
        Err(e) => {
            return Err(e);
        },
    };
    Ok(find_bot_by_id(&db.bots, id))
}

/// Delete bots by the textual identifier in the request path: every record
/// carrying that identifier goes, everything else stays; a missing
/// identifier deletes zero records and is not an error.
pub fn remove_bot(db: &mut Db, raw_id: &[u8]) -> (r: Result<DeleteResult, ApiError>)
    ensures
        !valid_uid_text(raw_id@) ==> r == Err::<DeleteResult, ApiError>(ApiError::Validation)
            && final(db)@ == old(db)@,
        valid_uid_text(raw_id@) ==> (r matches Ok(d) && final(db)@.bots == bots_remaining(
            old(db)@.bots,
            bot_id_query(uid_of_text(raw_id@)),
        ) && d.deleted_count == old(db)@.bots.len() - final(db)@.bots.len()),
        final(db)@.tasks == old(db)@.tasks,
        final(db)@.sources == old(db)@.sources,
        final(db)@.task_types == old(db)@.task_types,
{
    let id = match parse_uid(raw_id) {
        Ok(id) => id,
        Err(e) => {
            return Err(e);
        },
    };
    let mut q = BotQuery::new();
    q.id = Some(id);
    Ok(delete_bots(&mut db.bots, &q))
}

/// Patch one bot by identifier: load the record, overwrite exactly the
/// fields the sparse patch sets, persist the merged record back under the
/// same identifier, and return it.
pub fn update_bot(db: &mut Db, raw_id: &[u8], upd: BotUpdate) -> (r: Result<Bot, ApiError>)
    ensures
        !valid_uid_text(raw_id@) ==> r == Err::<Bot, ApiError>(ApiError::Validation) && final(db)@
            == old(db)@,
        valid_uid_text(raw_id@) && !has_bot_id(old(db)@.bots, uid_of_text(raw_id@)) ==> r
            == Err::<Bot, ApiError>(ApiError::NotFound) && final(db)@ == old(db)@,
        valid_uid_text(raw_id@) && has_bot_id(old(db)@.bots, uid_of_text(raw_id@)) ==> (r
            matches Ok(b) && b@ == bot_merged(
            old(db)@.bots[bot_index(old(db)@.bots, uid_of_text(raw_id@))],
            &upd,
        ) && final(db)@.bots == old(db)@.bots.update(
            bot_index(old(db)@.bots, uid_of_text(raw_id@)),
            b@,
        )),
        final(db)@.tasks == old(db)@.tasks,
        final(db)@.sources == old(db)@.sources,
        final(db)@.task_types == old(db)@.task_types,
{
    let id = match parse_uid(raw_id) {
        Ok(id) => id,
        Err(e) => {
            return Err(e);
        },
    };
    let mut bot = match find_bot_by_id(&db.bots, id) {
        Some(b) => b,
        None => {
            return Err(ApiError::NotFound);
        },
    };
    proof {
        lemma_bot_index(db@.bots, id);
    }
    bot.update_with(upd);
    let ret = bot.clone();
    let _ = update_bot_by_id(&mut db.bots, id, bot);
    Ok(ret)
}

/// Persist an already-validated bot under the given identifier: the create
/// shape enriched with the profile the platform reported. Fails, changing
/// nothing, exactly when the identifier is already taken.
pub fn create_bot_with_id(db: &mut Db, id: Uid, req: &BotCreate, profile: &SocialProfile) -> (r:
    Result<Bot, ApiError>)
    ensures
        !has_bot_id(old(db)@.bots, id) ==> (r matches Ok(b) && b@ == bot_hydrated(id, req, profile)
            && final(db)@.bots == old(db)@.bots.push(b@)),
        has_bot_id(old(db)@.bots, id) ==> r == Err::<Bot, ApiError>(ApiError::Upstream) && final(db)@ == old(db)@,
        final(db)@.tasks == old(db)@.tasks,
        final(db)@.sources == old(db)@.sources,
        final(db)@.task_types == old(db)@.task_types,
{
    let bot = Bot {
        id,
        platform: req.platform,
        access_token: clone_bytes(&req.access_token),
        username: clone_bytes(&profile.username),
        status: BotStatus::Active,
    };
    proof {
        assert(bot@ =~= bot_hydrated(id, req, profile));
    }
    let ret = bot.clone();
    match insert_bot(&mut db.bots, bot) {
        Ok(()) => Ok(ret),
        Err(e) => Err(e),
    }
}

/// Create a bot: the hydration pipeline. The access token was presented to
/// the platform collaborator; its verdict decides. A rejected token is a
/// validation failure, an unreachable platform an upstream failure, and in
/// either case nothing is persisted. On acceptance the enriched record is
/// persisted under a fresh identifier and returned.
pub fn create_bot(db: &mut Db, req: &BotCreate, verdict: TokenVerdict) -> (r: Result<
    Bot,
    ApiError,
>)
    ensures
        verdict is Rejected ==> r == Err::<Bot, ApiError>(ApiError::Validation) && final(db)@
            == old(db)@,
        verdict is Unreachable ==> r == Err::<Bot, ApiError>(ApiError::Upstream) && final(db)@
            == old(db)@,
        verdict matches TokenVerdict::Accepted(p) ==> (match r {
            Ok(b) => b@ == bot_hydrated(b@.id, req, &p) && !has_bot_id(old(db)@.bots, b@.id)
                && final(db)@.bots == old(db)@.bots.push(b@),
            Err(e) => e == ApiError::Upstream && final(db)@ == old(db)@,
        }),
        final(db)@.tasks == old(db)@.tasks,
        final(db)@.sources == old(db)@.sources,
        final(db)@.task_types == old(db)@.task_types,
{
    match verdict {
        TokenVerdict::Rejected => Err(ApiError::Validation),
        TokenVerdict::Unreachable => Err(ApiError::Upstream),
        TokenVerdict::Accepted(profile) => {
            let id = random_uid();
            create_bot_with_id(db, id, req, &profile)
        },
    }
}

/// The dry run of the hydration check: report the platform collaborator's
/// verdict on a token without touching the store — this function takes no
/// store and can create nothing. A rejected token is a validation failure,
/// an unreachable platform an upstream failure, an accepted token returns
/// the profile data.
pub fn check_by_token(_platform: SocialPlatform, verdict: TokenVerdict) -> (r: Result<
    SocialProfile,
    ApiError,
>)
    ensures
        verdict matches TokenVerdict::Accepted(p) ==> (r matches Ok(rp) && rp.username@ == p.username@),
        verdict is Rejected ==> r == Err::<SocialProfile, ApiError>(ApiError::Validation),
        verdict is Unreachable ==> r == Err::<SocialProfile, ApiError>(ApiError::Upstream),
{
    match verdict {
        TokenVerdict::Accepted(p) => Ok(p),
        TokenVerdict::Rejected => Err(ApiError::Validation),
        TokenVerdict::Unreachable => Err(ApiError::Upstream),
    }
}

/// List tasks: every record the filter matches, in stored order; no filter
/// means the match-all filter and returns the whole collection.
pub fn get_tasks(db: &Db, query: Option<&BotTaskQuery>) -> (r: Vec<BotTask>)
    ensures
        query matches Some(q) ==> task_views(r@) == tasks_matching(db@.tasks, *q),
        query is None ==> task_views(r@) == db@.tasks,
{
    match query {
        Some(q) => find_tasks(&db.tasks, q),
        None => {
            let all = BotTaskQuery::new();
            let r = find_tasks(&db.tasks, &all);
            proof {
                lemma_empty_task_query_matches_all(db@.tasks, all);
            }
            r
        },
    }
}

/// Get one task by the textual identifier in the request path.
pub fn get_task(db: &Db, raw_id: &[u8]) -> (r: Result<Option<BotTask>, ApiError>)
    ensures
        !valid_uid_text(raw_id@) ==> r == Err::<Option<BotTask>, ApiError>(ApiError::Validation),
        valid_uid_text(raw_id@) ==> (r matches Ok(o) && opt_task_view(o) == task_by_id(
            db@.tasks,
            uid_of_text(raw_id@),
        )),
{
    let id = match parse_uid(raw_id) {
        Ok(id) => id,
        Err(e) => {
            return Err(e);
        },
    };
    Ok(find_task_by_id(&db.tasks, id))
}

/// Delete tasks by the textual identifier in the request path.
pub fn remove_task(db: &mut Db, raw_id: &[u8]) -> (r: Result<DeleteResult, ApiError>)
    ensures
        !valid_uid_text(raw_id@) ==> r == Err::<DeleteResult, ApiError>(ApiError::Validation)
            && final(db)@ == old(db)@,
        valid_uid_text(raw_id@) ==> (r matches Ok(d) && final(db)@.tasks == tasks_remaining(
            old(db)@.tasks,
            task_id_query(uid_of_text(raw_id@)),
        ) && d.deleted_count == old(db)@.tasks.len() - final(db)@.tasks.len()),
        final(db)@.bots == old(db)@.bots,
        final(db)@.sources == old(db)@.sources,
        final(db)@.task_types == old(db)@.task_types,
{
    let id = match parse_uid(raw_id) {
        Ok(id) => id,
        Err(e) => {
            return Err(e);
        },
    };
    let mut q = BotTaskQuery::new();
    q.id = Some(id);
    Ok(delete_tasks(&mut db.tasks, &q))
}

/// Patch one task by identifier: load the record, overwrite exactly the
/// fields the sparse patch sets, persist the merged record back under the
/// same identifier, and return it.
pub fn update_task(db: &mut Db, raw_id: &[u8], upd: BotTaskUpdate) -> (r: Result<
    BotTask,
    ApiError,
>)
    ensures
        !valid_uid_text(raw_id@) ==> r == Err::<BotTask, ApiError>(ApiError::Validation) && final(db)@ == old(db)@,
        valid_uid_text(raw_id@) && !has_task_id(old(db)@.tasks, uid_of_text(raw_id@)) ==> r
            == Err::<BotTask, ApiError>(ApiError::NotFound) && final(db)@ == old(db)@,
        valid_uid_text(raw_id@) && has_task_id(old(db)@.tasks, uid_of_text(raw_id@)) ==> (r
            matches Ok(t) && t@ == task_merged(
            old(db)@.tasks[task_index(old(db)@.tasks, uid_of_text(raw_id@))],
            &upd,
        ) && final(db)@.tasks == old(db)@.tasks.update(
            task_index(old(db)@.tasks, uid_of_text(raw_id@)),
            t@,
        )),
        final(db)@.bots == old(db)@.bots,
        final(db)@.sources == old(db)@.sources,
        final(db)@.task_types == old(db)@.task_types,
{
    let id = match parse_uid(raw_id) {
        Ok(id) => id,
        Err(e) => {
            return Err(e);
        },
    };
    let mut task = match find_task_by_id(&db.tasks, id) {
        Some(t) => t,
        None => {
            return Err(ApiError::NotFound);
        },
    };
    proof {
        lemma_task_index(db@.tasks, id);
    }
    task.update_with(upd);
    let ret = task.clone();
    let _ = update_task_by_id(&mut db.tasks, id, task);
    Ok(ret)
}

/// Persist an already-validated task under the given identifier, enriched
/// with the owning bot's platform. Fails, changing nothing, exactly when
/// the identifier is already taken.
pub fn create_task_with_id(db: &mut Db, id: Uid, req: &BotTaskCreate, platform: SocialPlatform)
    -> (r: Result<BotTask, ApiError>)
    ensures
        !has_task_id(old(db)@.tasks, id) ==> (r matches Ok(t) && t@ == task_hydrated(
            id,
            req,
            platform,
        ) && final(db)@.tasks == old(db)@.tasks.push(t@)),
        has_task_id(old(db)@.tasks, id) ==> r == Err::<BotTask, ApiError>(ApiError::Upstream)
            && final(db)@ == old(db)@,
        final(db)@.bots == old(db)@.bots,
        final(db)@.sources == old(db)@.sources,
        final(db)@.task_types == old(db)@.task_types,
{
    let task = BotTask {
        id,
        bot_id: req.bot_id,
        platform,
        task_type: clone_bytes(&req.task_type),
        payload: clone_bytes(&req.payload),
        status: TaskStatus::Pending,
    };
    proof {
        assert(task@ =~= task_hydrated(id, req, platform));
    }
    let ret = task.clone();
    match insert_task(&mut db.tasks, task) {
        Ok(()) => Ok(ret),
        Err(e) => Err(e),
    }
}

/// Create a task: the hydration pipeline. The owning bot reference must
/// resolve and the task type must belong to the catalog — both checks are
/// mandatory, a failure persists nothing. On success the record is enriched
/// with the bot's platform and persisted pending under a fresh identifier.
pub fn create_task(db: &mut Db, req: &BotTaskCreate) -> (r: Result<BotTask, ApiError>)
    ensures
        !has_bot_id(old(db)@.bots, req.bot_id) ==> r == Err::<BotTask, ApiError>(ApiError::NotFound)
            && final(db)@ == old(db)@,
        has_bot_id(old(db)@.bots, req.bot_id) && !catalog_has(old(db)@.task_types, req.task_type@) ==> r
            == Err::<BotTask, ApiError>(ApiError::Validation) && final(db)@ == old(db)@,
        has_bot_id(old(db)@.bots, req.bot_id) && catalog_has(old(db)@.task_types, req.task_type@) ==> (match r {
            Ok(t) => t@ == task_hydrated(
                t@.id,
                req,
                old(db)@.bots[bot_index(old(db)@.bots, req.bot_id)].platform,
            ) && !has_task_id(old(db)@.tasks, t@.id) && final(db)@.tasks == old(db)@.tasks.push(t@),
            Err(e) => e == ApiError::Upstream && final(db)@ == old(db)@,
        }),
        final(db)@.bots == old(db)@.bots,
        final(db)@.sources == old(db)@.sources,
        final(db)@.task_types == old(db)@.task_types,
{
    let owner = match find_bot_by_id(&db.bots, req.bot_id) {
        Some(b) => b,
        None => {
            return Err(ApiError::NotFound);
        },
    };
    proof {
        lemma_bot_index(db@.bots, req.bot_id);
    }
    if !catalog_contains(&db.task_types, &req.task_type) {
        return Err(ApiError::Validation);
    }
    let id = random_uid();
    create_task_with_id(db, id, req, owner.platform)
}

/// List the read-only task-type catalog, whole: it supports no filtering.
pub fn get_task_types(db: &Db) -> (r: Vec<TaskType>)
    ensures
        task_type_views(r@) == db@.task_types,
{
    all_task_types(&db.task_types)
}

/// List every social source, in stored order: the listing is unfiltered.
pub fn get_social_sources(db: &Db) -> (r: Vec<SocialSource>)
    ensures
        source_views(r@) == db@.sources,
{
    let all = SocialSourceQuery::new();
    let r = find_sources(&db.sources, &all);
    proof {
        crate::laws::lemma_empty_source_query_matches_all(db@.sources, all);
    }
    r
}

/// Get one social source by the textual identifier in the request path.
pub fn get_social_source(db: &Db, raw_id: &[u8]) -> (r: Result<Option<SocialSource>, ApiError>)
    ensures
        !valid_uid_text(raw_id@) ==> r == Err::<Option<SocialSource>, ApiError>(
            ApiError::Validation,
        ),
        valid_uid_text(raw_id@) ==> (r matches Ok(o) && opt_source_view(o) == source_by_id(
            db@.sources,
            uid_of_text(raw_id@),
        )),
{
    let id = match parse_uid(raw_id) {
        Ok(id) => id,
        Err(e) => {
            return Err(e);
        },
    };
    Ok(find_source_by_id(&db.sources, id))
}

/// Persist a source built directly from the create shape under the given
/// identifier: no hydration, a pure structural transform. Fails, changing
/// nothing, exactly when the identifier is already taken.
pub fn create_source_with_id(db: &mut Db, id: Uid, c: &SocialSourceCreate) -> (r: Result<
    SocialSource,
    ApiError,
>)
    ensures
        !has_source_id(old(db)@.sources, id) ==> (r matches Ok(v) && v@ == source_created(id, c)
            && final(db)@.sources == old(db)@.sources.push(v@)),
        has_source_id(old(db)@.sources, id) ==> r == Err::<SocialSource, ApiError>(
            ApiError::Upstream,
        ) && final(db)@ == old(db)@,
        final(db)@.bots == old(db)@.bots,
        final(db)@.tasks == old(db)@.tasks,
        final(db)@.task_types == old(db)@.task_types,
{
    let source = SocialSource {
        id,
        platform: c.platform,
        url: clone_bytes(&c.url),
        metadata: clone_bytes(&c.metadata),
    };
    proof {
        assert(source@ =~= source_created(id, c));
    }
    let ret = source.clone();
    match insert_source(&mut db.sources, source) {
        Ok(()) => Ok(ret),
        Err(e) => Err(e),
    }
}

/// Create a social source: a direct transform of the create shape, no
/// external validation, persisted under a fresh identifier.
pub fn create_social_sources(db: &mut Db, c: &SocialSourceCreate) -> (r: Result<
    SocialSource,
    ApiError,
>)
    ensures
        (match r {
            Ok(v) => v@ == source_created(v@.id, c) && !has_source_id(old(db)@.sources, v@.id)
                && final(db)@.sources == old(db)@.sources.push(v@),
            Err(e) => e == ApiError::Upstream && final(db)@ == old(db)@,
        }),
        final(db)@.bots == old(db)@.bots,
        final(db)@.tasks == old(db)@.tasks,
        final(db)@.task_types == old(db)@.task_types,
{
    let id = random_uid();
    create_source_with_id(db, id, c)
}

/// Delete sources by the textual identifier in the request path.
pub fn remove_social_sources(db: &mut Db, raw_id: &[u8]) -> (r: Result<DeleteResult, ApiError>)
    ensures
        !valid_uid_text(raw_id@) ==> r == Err::<DeleteResult, ApiError>(ApiError::Validation)
            && final(db)@ == old(db)@,
        valid_uid_text(raw_id@) ==> (r matches Ok(d) && final(db)@.sources == sources_remaining(
            old(db)@.sources,
            source_id_query(uid_of_text(raw_id@)),
        ) && d.deleted_count == old(db)@.sources.len() - final(db)@.sources.len()),
        final(db)@.bots == old(db)@.bots,
        final(db)@.tasks == old(db)@.tasks,
        final(db)@.task_types == old(db)@.task_types,
{
    let id = match parse_uid(raw_id) {
        Ok(id) => id,
        Err(e) => {
            return Err(e);
        },
    };
    let mut q = SocialSourceQuery::new();
    q.id = Some(id);
    Ok(delete_sources(&mut db.sources, &q))
}

/// Patch one social source by identifier, with the full-replace policy: the
/// update endpoint accepts the create shape, and every content field is
/// overwritten from it wholesale; only the identifier survives.
pub fn update_social_source(db: &mut Db, raw_id: &[u8], c: SocialSourceCreate) -> (r: Result<
    SocialSource,
    ApiError,
>)
    ensures
        !valid_uid_text(raw_id@) ==> r == Err::<SocialSource, ApiError>(ApiError::Validation)
            && final(db)@ == old(db)@,
        valid_uid_text(raw_id@) && !has_source_id(old(db)@.sources, uid_of_text(raw_id@)) ==> r
            == Err::<SocialSource, ApiError>(ApiError::NotFound) && final(db)@ == old(db)@,
        valid_uid_text(raw_id@) && has_source_id(old(db)@.sources, uid_of_text(raw_id@)) ==> (r
            matches Ok(v) && v@ == source_created(uid_of_text(raw_id@), &c) && final(db)@.sources
            == old(db)@.sources.update(
            source_index(old(db)@.sources, uid_of_text(raw_id@)),
            v@,
        )),
        final(db)@.bots == old(db)@.bots,
        final(db)@.tasks == old(db)@.tasks,
        final(db)@.task_types == old(db)@.task_types,
{
    let id = match parse_uid(raw_id) {
        Ok(id) => id,
        Err(e) => {
            return Err(e);
        },
    };
    let mut source = match find_source_by_id(&db.sources, id) {
        Some(v) => v,
        None => {
            return Err(ApiError::NotFound);
        },
    };
    proof {
        lemma_source_index(db@.sources, id);
    }
    source.update_with(c);
    let ret = source.clone();
    let _ = update_source_by_id(&mut db.sources, id, source);
    Ok(ret)
}

} // verus!
