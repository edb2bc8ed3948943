//! Bot tasks: the records, the read-only task-type catalog, their sparse
//! query and patch shapes, and the verified operations on a stored
//! collection of them.

use vstd::prelude::*;
use vstd::pervasive::VecAdditionalExecFns;
use crate::errors::ApiError;
use crate::ids::Uid;
use crate::platform::SocialPlatform;
use crate::text::{clone_bytes, eq_bytes};

verus! {

/// Lifecycle status of a task.
#[derive(Clone, Copy, Debug, PartialEq, Eq, Structural)]
pub enum TaskStatus {
    Pending,
    Running,
    Finished,
}

/// One entry of the read-only task-type catalog.
#[derive(Debug)]
pub struct TaskType {
    pub name: Vec<u8>,
}

/// The mathematical value of a [`TaskType`].
#[verifier::ext_equal]
pub struct TaskTypeView {
    pub name: Seq<u8>,
}

impl View for TaskType {
    type V = TaskTypeView;

    open spec fn view(&self) -> TaskTypeView {
        TaskTypeView { name: self.name@ }
    }
}

impl Clone for TaskType {
    fn clone(&self) -> (r: Self)
        ensures
            r@ == self@,
    {
        let r = TaskType { name: clone_bytes(&self.name) };
        proof {
            assert(r@ =~= self@);
        }
        r
    }
}

/// A persisted task, owned by one bot.
///
/// Invariant of the creation pipeline: the task type belongs to the catalog
/// and the owning bot resolved when the task was created; the platform is
/// copied from that bot.
#[derive(Debug)]
pub struct BotTask {
    pub id: Uid,
    pub bot_id: Uid,
    pub platform: SocialPlatform,
    pub task_type: Vec<u8>,
    pub payload: Vec<u8>,
    pub status: TaskStatus,
}

/// The mathematical value of a [`BotTask`].
#[verifier::ext_equal]
pub struct TaskView {
    pub id: Uid,
    pub bot_id: Uid,
    pub platform: SocialPlatform,
    pub task_type: Seq<u8>,
    pub payload: Seq<u8>,
    pub status: TaskStatus,
}

impl View for BotTask {
    type V = TaskView;

    open spec fn view(&self) -> TaskView {
        TaskView {
            id: self.id,
            bot_id: self.bot_id,
            platform: self.platform,
            task_type: self.task_type@,
            payload: self.payload@,
            status: self.status,
        }
    }
}

impl Clone for BotTask {
    fn clone(&self) -> (r: Self)
        ensures
            r@ == self@,
    {
        let r = BotTask {
            id: self.id,
            bot_id: self.bot_id,
            platform: self.platform,
            task_type: clone_bytes(&self.task_type),
            payload: clone_bytes(&self.payload),
            status: self.status,
        };
        proof {
            assert(r@ =~= self@);
        }
        r
    }
}

/// The shape a caller submits to create a task.
#[derive(Debug)]
pub struct BotTaskCreate {
    pub bot_id: Uid,
    pub task_type: Vec<u8>,
    pub payload: Vec<u8>,
}

/// A sparse patch: only the fields that are present are overwritten.
#[derive(Debug)]
pub struct BotTaskUpdate {
    pub payload: Option<Vec<u8>>,
    pub status: Option<TaskStatus>,
}

/// A sparse filter over tasks: a record matches when it equals the filter
/// on every field the filter sets; an all-unset filter matches every record.
#[derive(Debug)]
pub struct BotTaskQuery {
    pub id: Option<Uid>,
    pub bot_id: Option<Uid>,
    pub status: Option<TaskStatus>,
}

impl BotTaskQuery {
    /// The match-all filter: no field constrained.
    pub fn new() -> (r: Self)
        ensures
            r.id is None,
            r.bot_id is None,
            r.status is None,
    {
        BotTaskQuery { id: None, bot_id: None, status: None }
    }
}

/// Whether a filter places no constraint at all.
pub open spec fn task_query_empty(q: BotTaskQuery) -> bool {
    q.id is None && q.bot_id is None && q.status is None
}

/// The filter that constrains the identifier alone.
pub open spec fn task_id_query(id: Uid) -> BotTaskQuery {
    BotTaskQuery { id: Some(id), bot_id: None, status: None }
}

/// Exact-equality match of one record against a sparse filter.
pub open spec fn task_matches(t: TaskView, q: BotTaskQuery) -> bool {
    &&& match q.id {
        Some(id) => t.id == id,
        None => true,
    }
    &&& match q.bot_id {
        Some(b) => t.bot_id == b,
        None => true,
    }
    &&& match q.status {
        Some(st) => t.status == st,
        None => true,
    }
}

/// The values of a stored sequence of tasks.
pub open spec fn task_views(s: Seq<BotTask>) -> Seq<TaskView> {
    s.map_values(|t: BotTask| t@)
}

/// The values of the stored catalog.
pub open spec fn task_type_views(s: Seq<TaskType>) -> Seq<TaskTypeView> {
    s.map_values(|t: TaskType| t@)
}

/// Whether the catalog holds an entry of the given name.
pub open spec fn catalog_has(s: Seq<TaskTypeView>, name: Seq<u8>) -> bool {
    exists|i: int| 0 <= i < s.len() && s[i].name == name
}

/// The subsequence of records that match the filter, in stored order.
pub open spec fn tasks_matching(s: Seq<TaskView>, q: BotTaskQuery) -> Seq<TaskView>
    decreases s.len(),
{
    if s.len() == 0 {
        Seq::empty()
    } else {
        let rest = tasks_matching(s.drop_last(), q);
        if task_matches(s.last(), q) {
            rest.push(s.last())
        } else {
            rest
        }
    }
}

/// The subsequence of records the filter does not match, in stored order:
/// what a deletion by that filter leaves behind.
pub open spec fn tasks_remaining(s: Seq<TaskView>, q: BotTaskQuery) -> Seq<TaskView>
    decreases s.len(),
{
    if s.len() == 0 {
        Seq::empty()
    } else {
        let rest = tasks_remaining(s.drop_last(), q);
        if task_matches(s.last(), q) {
            rest
        } else {
            rest.push(s.last())
        }
    }
}

/// Whether some stored record carries the identifier.
pub open spec fn has_task_id(s: Seq<TaskView>, id: Uid) -> bool {
    exists|i: int| 0 <= i < s.len() && s[i].id == id
}

/// Index of the first record with the identifier, `-1` when there is none.
pub open spec fn task_index(s: Seq<TaskView>, id: Uid) -> int
    decreases s.len(),
{
    if s.len() == 0 {
        -1
    } else if s[0].id == id {
        0
    } else {
        let rest = task_index(s.skip(1), id);
        if rest < 0 {
            -1
        } else {
            rest + 1
        }
    }
}

/// The first record with the identifier, if any.
pub open spec fn task_by_id(s: Seq<TaskView>, id: Uid) -> Option<TaskView> {
    if has_task_id(s, id) {
        Some(s[task_index(s, id)])
    } else {
        None
    }
}

pub proof fn lemma_task_index(s: Seq<TaskView>, id: Uid)
    ensures
        has_task_id(s, id) ==> 0 <= task_index(s, id) < s.len() && s[task_index(s, id)].id == id
            && forall|k: int| 0 <= k < task_index(s, id) ==> s[k].id != id,
        !has_task_id(s, id) ==> task_index(s, id) == -1,
    decreases s.len(),
{
    if s.len() > 0 && s[0].id != id {
        lemma_task_index(s.skip(1), id);
        if has_task_id(s, id) {
            let w = choose|i: int| 0 <= i < s.len() && s[i].id == id;
            assert(s.skip(1)[w - 1] == s[w]);
            assert(has_task_id(s.skip(1), id));
            let r = task_index(s.skip(1), id);
            assert(s[r + 1] == s.skip(1)[r]);
            assert forall|k: int| 0 <= k < task_index(s, id) implies s[k].id != id by {
                if k > 0 {
                    assert(s.skip(1)[k - 1] == s[k]);
                }
            }
        } else {
            if has_task_id(s.skip(1), id) {
                let j = choose|j: int| 0 <= j < s.skip(1).len() && s.skip(1)[j].id == id;
                assert(s[j + 1] == s.skip(1)[j]);
            }
        }
    }
}

/// The record a successful hydration persists: the create shape, owned by
/// the referenced bot, on that bot's platform, pending, under a fresh
/// identifier.
pub open spec fn task_hydrated(
    id: Uid,
    req: &BotTaskCreate,
    platform: SocialPlatform,
) -> TaskView {
    TaskView {
        id,
        bot_id: req.bot_id,
        platform,
        task_type: req.task_type@,
        payload: req.payload@,
        status: TaskStatus::Pending,
    }
}

/// The sparse-merge result: fields present in the patch are overwritten,
/// absent ones keep their prior value, the identifier never changes.
pub open spec fn task_merged(t: TaskView, u: &BotTaskUpdate) -> TaskView {
    TaskView {
        id: t.id,
        bot_id: t.bot_id,
        platform: t.platform,
        task_type: t.task_type,
        payload: match u.payload {
            Some(p) => p@,
            None => t.payload,
        },
        status: match u.status {
            Some(st) => st,
            None => t.status,
        },
    }
}

impl BotTask {
    /// Apply a sparse patch: overwrite exactly the fields the patch sets.
    pub fn update_with(&mut self, u: BotTaskUpdate)
        ensures
            final(self)@ == task_merged(old(self)@, &u),
    {
        let ghost pre = self@;
        let ghost gu = u;
        let BotTaskUpdate { payload, status } = u;
        match payload {
            Some(p) => {
                self.payload = p;
            },
            None => {},
        }
        match status {
            Some(st) => {
                self.status = st;
            },
            None => {},
        }
        proof {
            assert(self@ =~= task_merged(pre, &gu));
        }
    }
}

fn task_matches_exec(t: &BotTask, q: &BotTaskQuery) -> (r: bool)
    ensures
        r == task_matches(t@, *q),
{
    let id_ok = match &q.id {
        Some(id) => t.id == *id,
        None => true,
    };
    let bot_ok = match &q.bot_id {
        Some(b) => t.bot_id == *b,
        None => true,
    };
    let status_ok = match &q.status {
        Some(st) => t.status == *st,
        None => true,
    };
    id_ok && bot_ok && status_ok
}

/// Every stored record that matches the filter, in stored order.
pub fn find_tasks(s: &Vec<BotTask>, q: &BotTaskQuery) -> (r: Vec<BotTask>)
    ensures
        task_views(r@) == tasks_matching(task_views(s@), *q),
{
    let n = s.len();
    let mut r: Vec<BotTask> = Vec::new();
    let mut i: usize = 0;
    while i < n
        invariant
            i <= n,
            n == s@.len(),
            task_views(r@) == tasks_matching(task_views(s@).take(i as int), *q),
        decreases n - i,
    {
        if task_matches_exec(&s[i], q) {
            r.push(s[i].clone());
        }
        proof {
            lemma_tasks_matching_push(task_views(s@).take(i as int), *q, s@[i as int]@);
            assert(task_views(s@).take(i as int + 1) =~= task_views(s@).take(i as int).push(
                s@[i as int]@,
            ));
            assert(task_views(r@) =~= tasks_matching(task_views(s@).take(i as int + 1), *q));
        }
        i = i + 1;
    }
    proof {
        assert(task_views(s@).take(n as int) =~= task_views(s@));
    }
    r
}

pub proof fn lemma_tasks_matching_push(s: Seq<TaskView>, q: BotTaskQuery, x: TaskView)
    ensures
        tasks_matching(s.push(x), q) == if task_matches(x, q) {
            tasks_matching(s, q).push(x)
        } else {
            tasks_matching(s, q)
        },
{
    assert(s.push(x).drop_last() =~= s);
}

pub proof fn lemma_tasks_remaining_push(s: Seq<TaskView>, q: BotTaskQuery, x: TaskView)
    ensures
        tasks_remaining(s.push(x), q) == if task_matches(x, q) {
            tasks_remaining(s, q)
        } else {
            tasks_remaining(s, q).push(x)
        },
{
    assert(s.push(x).drop_last() =~= s);
}

/// The first stored record with the identifier, if any.
pub fn find_task_by_id(s: &Vec<BotTask>, id: Uid) -> (r: Option<BotTask>)
    ensures
        match r {
            Some(t) => task_by_id(task_views(s@), id) == Some(t@),
            None => task_by_id(task_views(s@), id) is None,
        },
{
    match task_index_of(s, id) {
        Some(i) => {
            proof {
                lemma_task_index(task_views(s@), id);
            }
            Some(s[i].clone())
        },
        None => None,
    }
}

/// Index of the first stored record with the identifier.
fn task_index_of(s: &Vec<BotTask>, id: Uid) -> (r: Option<usize>)
    ensures
        match r {
            Some(i) => has_task_id(task_views(s@), id) && i == task_index(task_views(s@), id),
            None => !has_task_id(task_views(s@), id),
        },
{
    proof {
        lemma_task_index(task_views(s@), id);
    }
    let n = s.len();
    let mut i: usize = 0;
    while i < n
        invariant
            i <= n,
            n == s@.len(),
            forall|k: int| 0 <= k < i ==> task_views(s@)[k].id != id,
        decreases n - i,
    {
        if s[i].id == id {
            proof {
                let vs = task_views(s@);
                assert(vs[i as int].id == id);
                assert(has_task_id(vs, id));
                lemma_task_index(vs, id);
                assert(i as int == task_index(vs, id));
            }
            return Some(i);
        }
        i = i + 1;
    }
    None
}

/// Persist a new record. Fails, changing nothing, exactly when the
/// identifier is already taken.
pub fn insert_task(s: &mut Vec<BotTask>, t: BotTask) -> (r: Result<(), ApiError>)
    ensures
        !has_task_id(task_views(old(s)@), t@.id) ==> r == Ok::<(), ApiError>(()) && task_views(
            final(s)@,
        ) == task_views(old(s)@).push(t@),
        has_task_id(task_views(old(s)@), t@.id) ==> r == Err::<(), ApiError>(ApiError::Upstream)
            && final(s)@ == old(s)@,
{
    match task_index_of(s, t.id) {
        Some(_) => Err(ApiError::Upstream),
        None => {
            let ghost pre = task_views(s@);
            let ghost tv = t@;
            s.push(t);
            proof {
                assert(task_views(s@) =~= pre.push(tv));
            }
            Ok(())
        },
    }
}

/// Replace the first record carrying the identifier. Fails, changing
/// nothing, exactly when no record carries it.
pub fn update_task_by_id(s: &mut Vec<BotTask>, id: Uid, t: BotTask) -> (r: Result<(), ApiError>)
    ensures
        has_task_id(task_views(old(s)@), id) ==> r == Ok::<(), ApiError>(()) && task_views(
            final(s)@,
        ) == task_views(old(s)@).update(task_index(task_views(old(s)@), id), t@),
        !has_task_id(task_views(old(s)@), id) ==> r == Err::<(), ApiError>(ApiError::NotFound)
            && final(s)@ == old(s)@,
{
    match task_index_of(s, id) {
        Some(i) => {
            let ghost pre = task_views(s@);
            let ghost tv = t@;
            proof {
                lemma_task_index(pre, id);
            }
            s.set(i, t);
            proof {
                assert(task_views(s@) =~= pre.update(i as int, tv));
            }
            Ok(())
        },
        None => Err(ApiError::NotFound),
    }
}

/// Remove every record the filter matches; report how many went. Removing
/// by a filter nothing matches removes nothing and is not an error.
pub fn delete_tasks(s: &mut Vec<BotTask>, q: &BotTaskQuery) -> (r: crate::DeleteResult)
    ensures
        task_views(final(s)@) == tasks_remaining(task_views(old(s)@), *q),
        r.deleted_count == old(s)@.len() - final(s)@.len(),
{
    let n = s.len();
    let mut kept: Vec<BotTask> = Vec::new();
    let mut i: usize = 0;
    while i < n
        invariant
            i <= n,
            n == s@.len(),
            kept@.len() <= i,
            task_views(kept@) == tasks_remaining(task_views(s@).take(i as int), *q),
        decreases n - i,
    {
        if !task_matches_exec(&s[i], q) {
            kept.push(s[i].clone());
        }
        proof {
            lemma_tasks_remaining_push(task_views(s@).take(i as int), *q, s@[i as int]@);
            assert(task_views(s@).take(i as int + 1) =~= task_views(s@).take(i as int).push(
                s@[i as int]@,
            ));
            assert(task_views(kept@) =~= tasks_remaining(task_views(s@).take(i as int + 1), *q));
        }
        i = i + 1;
    }
    proof {
        assert(task_views(s@).take(n as int) =~= task_views(s@));
    }
    let deleted = (n - kept.len()) as u64;
    *s = kept;
    crate::DeleteResult { deleted_count: deleted }
}

/// Whether the catalog holds an entry of the given name.
pub fn catalog_contains(s: &Vec<TaskType>, name: &Vec<u8>) -> (r: bool)
    ensures
        r == catalog_has(task_type_views(s@), name@),
{
    let n = s.len();
    let mut i: usize = 0;
    while i < n
        invariant
            i <= n,
            n == s@.len(),
            forall|k: int| 0 <= k < i ==> task_type_views(s@)[k].name != name@,
        decreases n - i,
    {
        if eq_bytes(&s[i].name, name) {
            proof {
                assert(task_type_views(s@)[i as int].name == name@);
            }
            return true;
        }
        i = i + 1;
    }
    false
}

/// Every entry of the read-only catalog, in stored order: the catalog
/// supports no filtering at all.
pub fn all_task_types(s: &Vec<TaskType>) -> (r: Vec<TaskType>)
    ensures
        task_type_views(r@) == task_type_views(s@),
{
    let n = s.len();
    let mut r: Vec<TaskType> = Vec::new();
    let mut i: usize = 0;
    while i < n
        invariant
            i <= n,
            n == s@.len(),
            task_type_views(r@) == task_type_views(s@).take(i as int),
        decreases n - i,
    {
        let ghost pre = task_type_views(r@);
        r.push(s[i].clone());
        proof {
            assert(task_type_views(s@).take(i as int + 1) =~= task_type_views(s@).take(
                i as int,
            ).push(s@[i as int]@));
            assert(task_type_views(r@) =~= pre.push(s@[i as int]@));
            assert(task_type_views(r@) =~= task_type_views(s@).take(i as int + 1));
        }
        i = i + 1;
    }
    proof {
        assert(task_type_views(s@).take(n as int) =~= task_type_views(s@));
    }
    r
}

} // verus!
