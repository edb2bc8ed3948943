//! Social sources: the records, their filter, the full-replace update
//! policy, and the verified operations on a stored collection of them.
//!
//! Unlike bots and tasks, a source is created by a direct structural
//! transform of the create shape — no hydration — and its update endpoint
//! accepts that same shape and overwrites every content field wholesale,
//! leaving only the identifier untouched.

use vstd::prelude::*;
use vstd::pervasive::VecAdditionalExecFns;
use crate::errors::ApiError;
use crate::ids::Uid;
use crate::platform::SocialPlatform;
use crate::text::clone_bytes;

verus! {

/// A persisted social source: an address bots draw content from.
#[derive(Debug)]
pub struct SocialSource {
    pub id: Uid,
    pub platform: SocialPlatform,
    pub url: Vec<u8>,
    pub metadata: Vec<u8>,
}

/// The mathematical value of a [`SocialSource`].
#[verifier::ext_equal]
pub struct SourceView {
    pub id: Uid,
    pub platform: SocialPlatform,
    pub url: Seq<u8>,
    pub metadata: Seq<u8>,
}

impl View for SocialSource {
    type V = SourceView;

    open spec fn view(&self) -> SourceView {
        SourceView {
            id: self.id,
            platform: self.platform,
            url: self.url@,
            metadata: self.metadata@,
        }
    }
}

impl Clone for SocialSource {
    fn clone(&self) -> (r: Self)
        ensures
            r@ == self@,
    {
        let r = SocialSource {
            id: self.id,
            platform: self.platform,
            url: clone_bytes(&self.url),
            metadata: clone_bytes(&self.metadata),
        };
        proof {
            assert(r@ =~= self@);
        }
        r
    }
}

/// The shape a caller submits both to create a source and to overwrite one.
#[derive(Debug)]
pub struct SocialSourceCreate {
    pub platform: SocialPlatform,
    pub url: Vec<u8>,
    pub metadata: Vec<u8>,
}

/// A sparse filter over sources: a record matches when it equals the filter
/// on every field the filter sets; an all-unset filter matches every record.
#[derive(Debug)]
pub struct SocialSourceQuery {
    pub id: Option<Uid>,
    pub platform: Option<SocialPlatform>,
}

impl SocialSourceQuery {
    /// The match-all filter: no field constrained.
    pub fn new() -> (r: Self)
        ensures
            r.id is None,
            r.platform is None,
    {
        SocialSourceQuery { id: None, platform: None }
    }
}

/// Whether a filter places no constraint at all.
pub open spec fn source_query_empty(q: SocialSourceQuery) -> bool {
    q.id is None && q.platform is None
}

/// The filter that constrains the identifier alone.
pub open spec fn source_id_query(id: Uid) -> SocialSourceQuery {
    SocialSourceQuery { id: Some(id), platform: None }
}

/// Exact-equality match of one record against a sparse filter.
pub open spec fn source_matches(v: SourceView, q: SocialSourceQuery) -> bool {
    &&& match q.id {
        Some(id) => v.id == id,
        None => true,
    }
    &&& match q.platform {
        Some(p) => v.platform == p,
        None => true,
    }
}

/// The values of a stored sequence of sources.
pub open spec fn source_views(s: Seq<SocialSource>) -> Seq<SourceView> {
    s.map_values(|v: SocialSource| v@)
}

/// The subsequence of records that match the filter, in stored order.
pub open spec fn sources_matching(s: Seq<SourceView>, q: SocialSourceQuery) -> Seq<SourceView>
    decreases s.len(),
{
    if s.len() == 0 {
        Seq::empty()
    } else {
        let rest = sources_matching(s.drop_last(), q);
        if source_matches(s.last(), q) {
            rest.push(s.last())
        } else {
            rest
        }
    }
}

/// The subsequence of records the filter does not match, in stored order:
/// what a deletion by that filter leaves behind.
pub open spec fn sources_remaining(s: Seq<SourceView>, q: SocialSourceQuery) -> Seq<SourceView>
    decreases s.len(),
{
    if s.len() == 0 {
        Seq::empty()
    } else {
        let rest = sources_remaining(s.drop_last(), q);
        if source_matches(s.last(), q) {
            rest
        } else {
            rest.push(s.last())
        }
    }
}

/// Whether some stored record carries the identifier.
pub open spec fn has_source_id(s: Seq<SourceView>, id: Uid) -> bool {
    exists|i: int| 0 <= i < s.len() && s[i].id == id
}

/// Index of the first record with the identifier, `-1` when there is none.
pub open spec fn source_index(s: Seq<SourceView>, id: Uid) -> int
    decreases s.len(),
{
    if s.len() == 0 {
        -1
    } else if s[0].id == id {
        0
    } else {
        let rest = source_index(s.skip(1), id);
        if rest < 0 {
            -1
        } else {
            rest + 1
        }
    }
}

/// The first record with the identifier, if any.
pub open spec fn source_by_id(s: Seq<SourceView>, id: Uid) -> Option<SourceView> {
    if has_source_id(s, id) {
        Some(s[source_index(s, id)])
    } else {
        None
    }
}

pub proof fn lemma_source_index(s: Seq<SourceView>, id: Uid)
    ensures
        has_source_id(s, id) ==> 0 <= source_index(s, id) < s.len() && s[source_index(s, id)].id
            == id && forall|k: int| 0 <= k < source_index(s, id) ==> s[k].id != id,
        !has_source_id(s, id) ==> source_index(s, id) == -1,
    decreases s.len(),
{
    if s.len() > 0 && s[0].id != id {
        lemma_source_index(s.skip(1), id);
        if has_source_id(s, id) {
            let w = choose|i: int| 0 <= i < s.len() && s[i].id == id;
            assert(s.skip(1)[w - 1] == s[w]);
            assert(has_source_id(s.skip(1), id));
            let r = source_index(s.skip(1), id);
            assert(s[r + 1] == s.skip(1)[r]);
            assert forall|k: int| 0 <= k < source_index(s, id) implies s[k].id != id by {
                if k > 0 {
                    assert(s.skip(1)[k - 1] == s[k]);
                }
            }
        } else {
            if has_source_id(s.skip(1), id) {
                let j = choose|j: int| 0 <= j < s.skip(1).len() && s.skip(1)[j].id == id;
                assert(s[j + 1] == s.skip(1)[j]);
            }
        }
    }
}

/// The record a creation persists: the create shape under a fresh
/// identifier, unchanged otherwise.
pub open spec fn source_created(id: Uid, c: &SocialSourceCreate) -> SourceView {
    SourceView { id, platform: c.platform, url: c.url@, metadata: c.metadata@ }
}

impl SocialSource {
    /// Overwrite every content field from a create shape; only the
    /// identifier survives.
    pub fn update_with(&mut self, c: SocialSourceCreate)
        ensures
            final(self)@ == source_created(old(self)@.id, &c),
    {
        let ghost gc = c;
        let SocialSourceCreate { platform, url, metadata } = c;
        self.platform = platform;
        self.url = url;
        self.metadata = metadata;
        proof {
            assert(self@ =~= source_created(self@.id, &gc));
        }
    }
}

fn source_matches_exec(v: &SocialSource, q: &SocialSourceQuery) -> (r: bool)
    ensures
        r == source_matches(v@, *q),
{
    let id_ok = match &q.id {
        Some(id) => v.id == *id,
        None => true,
    };
    let platform_ok = match &q.platform {
        Some(p) => v.platform == *p,
        None => true,
    };
    id_ok && platform_ok
}

/// Every stored record that matches the filter, in stored order.
pub fn find_sources(s: &Vec<SocialSource>, q: &SocialSourceQuery) -> (r: Vec<SocialSource>)
    ensures
        source_views(r@) == sources_matching(source_views(s@), *q),
{
    let n = s.len();
    let mut r: Vec<SocialSource> = Vec::new();
    let mut i: usize = 0;
    while i < n
        invariant
            i <= n,
            n == s@.len(),
            source_views(r@) == sources_matching(source_views(s@).take(i as int), *q),
        decreases n - i,
    {
        if source_matches_exec(&s[i], q) {
            r.push(s[i].clone());
        }
        proof {
            lemma_sources_matching_push(source_views(s@).take(i as int), *q, s@[i as int]@);
            assert(source_views(s@).take(i as int + 1) =~= source_views(s@).take(i as int).push(
                s@[i as int]@,
            ));
            assert(source_views(r@) =~= sources_matching(source_views(s@).take(i as int + 1), *q));
        }
        i = i + 1;
    }
    proof {
        assert(source_views(s@).take(n as int) =~= source_views(s@));
    }
    r
}

pub proof fn lemma_sources_matching_push(s: Seq<SourceView>, q: SocialSourceQuery, x: SourceView)
    ensures
        sources_matching(s.push(x), q) == if source_matches(x, q) {
            sources_matching(s, q).push(x)
        } else {
            sources_matching(s, q)
        },
{
    assert(s.push(x).drop_last() =~= s);
}

pub proof fn lemma_sources_remaining_push(s: Seq<SourceView>, q: SocialSourceQuery, x: SourceView)
    ensures
        sources_remaining(s.push(x), q) == if source_matches(x, q) {
            sources_remaining(s, q)
        } else {
            sources_remaining(s, q).push(x)
        },
{
    assert(s.push(x).drop_last() =~= s);
}

/// The first stored record with the identifier, if any.
pub fn find_source_by_id(s: &Vec<SocialSource>, id: Uid) -> (r: Option<SocialSource>)
    ensures
        match r {
            Some(v) => source_by_id(source_views(s@), id) == Some(v@),
            None => source_by_id(source_views(s@), id) is None,
        },
{
    match source_index_of(s, id) {
        Some(i) => {
            proof {
                lemma_source_index(source_views(s@), id);
            }
            Some(s[i].clone())
        },
        None => None,
    }
}

/// Index of the first stored record with the identifier.
fn source_index_of(s: &Vec<SocialSource>, id: Uid) -> (r: Option<usize>)
    ensures
        match r {
            Some(i) => has_source_id(source_views(s@), id) && i == source_index(
                source_views(s@),
                id,
            ),
            None => !has_source_id(source_views(s@), id),
        },
{
    proof {
        lemma_source_index(source_views(s@), id);
    }
    let n = s.len();
    let mut i: usize = 0;
    while i < n
        invariant
            i <= n,
            n == s@.len(),
            forall|k: int| 0 <= k < i ==> source_views(s@)[k].id != id,
        decreases n - i,
    {
        if s[i].id == id {
            proof {
                let vs = source_views(s@);
                assert(vs[i as int].id == id);
                assert(has_source_id(vs, id));
                lemma_source_index(vs, id);
                assert(i as int == source_index(vs, id));
            }
            return Some(i);
        }
        i = i + 1;
    }
    None
}

/// Persist a new record. Fails, changing nothing, exactly when the
/// identifier is already taken.
pub fn insert_source(s: &mut Vec<SocialSource>, v: SocialSource) -> (r: Result<(), ApiError>)
    ensures
        !has_source_id(source_views(old(s)@), v@.id) ==> r == Ok::<(), ApiError>(())
            && source_views(final(s)@) == source_views(old(s)@).push(v@),
        has_source_id(source_views(old(s)@), v@.id) ==> r == Err::<(), ApiError>(
            ApiError::Upstream,
        ) && final(s)@ == old(s)@,
{
    match source_index_of(s, v.id) {
        Some(_) => Err(ApiError::Upstream),
        None => {
            let ghost pre = source_views(s@);
            let ghost vv = v@;
            s.push(v);
            proof {
                assert(source_views(s@) =~= pre.push(vv));
            }
            Ok(())
        },
    }
}

/// Replace the first record carrying the identifier. Fails, changing
/// nothing, exactly when no record carries it.
pub fn update_source_by_id(s: &mut Vec<SocialSource>, id: Uid, v: SocialSource) -> (r: Result<
    (),
    ApiError,
>)
    ensures
        has_source_id(source_views(old(s)@), id) ==> r == Ok::<(), ApiError>(()) && source_views(
            final(s)@,
        ) == source_views(old(s)@).update(source_index(source_views(old(s)@), id), v@),
        !has_source_id(source_views(old(s)@), id) ==> r == Err::<(), ApiError>(ApiError::NotFound)
            && final(s)@ == old(s)@,
{
    match source_index_of(s, id) {
        Some(i) => {
            let ghost pre = source_views(s@);
            let ghost vv = v@;
            proof {
                lemma_source_index(pre, id);
            }
            s.set(i, v);
            proof {
                assert(source_views(s@) =~= pre.update(i as int, vv));
            }
            Ok(())
        },
        None => Err(ApiError::NotFound),
    }
}

/// Remove every record the filter matches; report how many went. Removing
/// by a filter nothing matches removes nothing and is not an error.
pub fn delete_sources(s: &mut Vec<SocialSource>, q: &SocialSourceQuery) -> (r: crate::DeleteResult)
    ensures
        source_views(final(s)@) == sources_remaining(source_views(old(s)@), *q),
        r.deleted_count == old(s)@.len() - final(s)@.len(),
{
    let n = s.len();
    let mut kept: Vec<SocialSource> = Vec::new();
    let mut i: usize = 0;
    while i < n
        invariant
            i <= n,
            n == s@.len(),
            kept@.len() <= i,
            source_views(kept@) == sources_remaining(source_views(s@).take(i as int), *q),
        decreases n - i,
    {
        if !source_matches_exec(&s[i], q) {
            kept.push(s[i].clone());
        }
        proof {
            lemma_sources_remaining_push(source_views(s@).take(i as int), *q, s@[i as int]@);
            assert(source_views(s@).take(i as int + 1) =~= source_views(s@).take(i as int).push(
                s@[i as int]@,
            ));
            assert(source_views(kept@) =~= sources_remaining(
                source_views(s@).take(i as int + 1),
                *q,
            ));
        }
        i = i + 1;
    }
    proof {
        assert(source_views(s@).take(n as int) =~= source_views(s@));
    }
    let deleted = (n - kept.len()) as u64;
    *s = kept;
    crate::DeleteResult { deleted_count: deleted }
}

} // verus!
