//! Bots: the records, their sparse query and patch shapes, and the verified
//! operations on a stored collection of them.

use vstd::prelude::*;
use vstd::pervasive::VecAdditionalExecFns;
use crate::errors::ApiError;
use crate::ids::Uid;
use crate::platform::{SocialPlatform, SocialProfile};
use crate::text::clone_bytes;

verus! {

/// Lifecycle status of a bot.
#[derive(Clone, Copy, Debug, PartialEq, Eq, Structural)]
pub enum BotStatus {
    Active,
    Suspended,
}

/// A persisted bot: an automation account on one social platform.
///
/// Invariant of the creation pipeline: the access token was verified against
/// the platform before the record was persisted, and the identifier never
/// changes afterwards.
#[derive(Debug)]
pub struct Bot {
    pub id: Uid,
    pub platform: SocialPlatform,
    pub access_token: Vec<u8>,
    pub username: Vec<u8>,
    pub status: BotStatus,
}

/// The mathematical value of a [`Bot`].
#[verifier::ext_equal]
pub struct BotView {
    pub id: Uid,
    pub platform: SocialPlatform,
    pub access_token: Seq<u8>,
    pub username: Seq<u8>,
    pub status: BotStatus,
}

impl View for Bot {
    type V = BotView;

    open spec fn view(&self) -> BotView {
        BotView {
            id: self.id,
            platform: self.platform,
            access_token: self.access_token@,
            username: self.username@,
            status: self.status,
        }
    }
}

impl Clone for Bot {
    fn clone(&self) -> (r: Self)
        ensures
            r@ == self@,
    {
        let r = Bot {
            id: self.id,
            platform: self.platform,
            access_token: clone_bytes(&self.access_token),
            username: clone_bytes(&self.username),
            status: self.status,
        };
        proof {
            assert(r@ =~= self@);
        }
        r
    }
}

/// The shape a caller submits to create a bot.
#[derive(Debug)]
pub struct BotCreate {
    pub platform: SocialPlatform,
    pub access_token: Vec<u8>,
}

/// A sparse patch: only the fields that are present are overwritten.
#[derive(Debug)]
pub struct BotUpdate {
    pub platform: Option<SocialPlatform>,
    pub access_token: Option<Vec<u8>>,
    pub username: Option<Vec<u8>>,
    pub status: Option<BotStatus>,
}

/// A sparse filter over bots: a record matches when it equals the filter on
/// every field the filter sets; an all-unset filter matches every record.
#[derive(Debug)]
pub struct BotQuery {
    pub id: Option<Uid>,
    pub platform: Option<SocialPlatform>,
    pub status: Option<BotStatus>,
}

impl BotQuery {
    /// The match-all filter: no field constrained.
    pub fn new() -> (r: Self)
        ensures
            r.id is None,
            r.platform is None,
            r.status is None,
    {
        BotQuery { id: None, platform: None, status: None }
    }
}

/// Whether a filter places no constraint at all.
pub open spec fn bot_query_empty(q: BotQuery) -> bool {
    q.id is None && q.platform is None && q.status is None
}

/// The filter that constrains the identifier alone.
pub open spec fn bot_id_query(id: Uid) -> BotQuery {
    BotQuery { id: Some(id), platform: None, status: None }
}

/// Exact-equality match of one record against a sparse filter.
pub open spec fn bot_matches(b: BotView, q: BotQuery) -> bool {
    &&& match q.id {
        Some(id) => b.id == id,
        None => true,
    }
    &&& match q.platform {
        Some(p) => b.platform == p,
        None => true,
    }
    &&& match q.status {
        Some(st) => b.status == st,
        None => true,
    }
}

/// The values of a stored sequence of bots.
pub open spec fn bot_views(s: Seq<Bot>) -> Seq<BotView> {
    s.map_values(|b: Bot| b@)
}

/// The subsequence of records that match the filter, in stored order.
pub open spec fn bots_matching(s: Seq<BotView>, q: BotQuery) -> Seq<BotView>
    decreases s.len(),
{
    if s.len() == 0 {
        Seq::empty()
    } else {
        let rest = bots_matching(s.drop_last(), q);
        if bot_matches(s.last(), q) {
            rest.push(s.last())
        } else {
            rest
        }
    }
}

/// The subsequence of records the filter does not match, in stored order:
/// what a deletion by that filter leaves behind.
pub open spec fn bots_remaining(s: Seq<BotView>, q: BotQuery) -> Seq<BotView>
    decreases s.len(),
{
    if s.len() == 0 {
        Seq::empty()
    } else {
        let rest = bots_remaining(s.drop_last(), q);
        if bot_matches(s.last(), q) {
            rest
        } else {
            rest.push(s.last())
        }
    }
}

/// Whether some stored record carries the identifier.
pub open spec fn has_bot_id(s: Seq<BotView>, id: Uid) -> bool {
    exists|i: int| 0 <= i < s.len() && s[i].id == id
}

/// Index of the first record with the identifier, `-1` when there is none.
pub open spec fn bot_index(s: Seq<BotView>, id: Uid) -> int
    decreases s.len(),
{
    if s.len() == 0 {
        -1
    } else if s[0].id == id {
        0
    } else {
        let rest = bot_index(s.skip(1), id);
        if rest < 0 {
            -1
        } else {
            rest + 1
        }
    }
}

/// The first record with the identifier, if any.
pub open spec fn bot_by_id(s: Seq<BotView>, id: Uid) -> Option<BotView> {
    if has_bot_id(s, id) {
        Some(s[bot_index(s, id)])
    } else {
        None
    }
}

pub proof fn lemma_bot_index(s: Seq<BotView>, id: Uid)
    ensures
        has_bot_id(s, id) ==> 0 <= bot_index(s, id) < s.len() && s[bot_index(s, id)].id == id
            && forall|k: int| 0 <= k < bot_index(s, id) ==> s[k].id != id,
        !has_bot_id(s, id) ==> bot_index(s, id) == -1,
    decreases s.len(),
{
    if s.len() > 0 && s[0].id != id {
        lemma_bot_index(s.skip(1), id);
        if has_bot_id(s, id) {
            let w = choose|i: int| 0 <= i < s.len() && s[i].id == id;
            assert(s.skip(1)[w - 1] == s[w]);
            assert(has_bot_id(s.skip(1), id));
            let r = bot_index(s.skip(1), id);
            assert(s[r + 1] == s.skip(1)[r]);
            assert forall|k: int| 0 <= k < bot_index(s, id) implies s[k].id != id by {
                if k > 0 {
                    assert(s.skip(1)[k - 1] == s[k]);
                }
            }
        } else {
            if has_bot_id(s.skip(1), id) {
                let j = choose|j: int| 0 <= j < s.skip(1).len() && s.skip(1)[j].id == id;
                assert(s[j + 1] == s.skip(1)[j]);
            }
        }
    }
}

/// The record a successful hydration persists: the create shape plus the
/// profile the platform reported, under a fresh identifier, active.
pub open spec fn bot_hydrated(id: Uid, req: &BotCreate, profile: &SocialProfile) -> BotView {
    BotView {
        id,
        platform: req.platform,
        access_token: req.access_token@,
        username: profile.username@,
        status: BotStatus::Active,
    }
}

/// The sparse-merge result: fields present in the patch are overwritten,
/// absent ones keep their prior value, the identifier never changes.
pub open spec fn bot_merged(b: BotView, u: &BotUpdate) -> BotView {
    BotView {
        id: b.id,
        platform: match u.platform {
            Some(p) => p,
            None => b.platform,
        },
        access_token: match u.access_token {
            Some(t) => t@,
            None => b.access_token,
        },
        username: match u.username {
            Some(n) => n@,
            None => b.username,
        },
        status: match u.status {
            Some(st) => st,
            None => b.status,
        },
    }
}

impl Bot {
    /// Apply a sparse patch: overwrite exactly the fields the patch sets.
    pub fn update_with(&mut self, u: BotUpdate)
        ensures
            final(self)@ == bot_merged(old(self)@, &u),
    {
        let ghost pre = self@;
        let ghost gu = u;
        let BotUpdate { platform, access_token, username, status } = u;
        match platform {
            Some(p) => {
                self.platform = p;
            },
            None => {},
        }
        match access_token {
            Some(t) => {
                self.access_token = t;
            },
            None => {},
        }
        match username {
            Some(n) => {
                self.username = n;
            },
            None => {},
        }
        match status {
            Some(st) => {
                self.status = st;
            },
            None => {},
        }
        proof {
            assert(self@ =~= bot_merged(pre, &gu));
        }
    }
}

fn bot_matches_exec(b: &Bot, q: &BotQuery) -> (r: bool)
    ensures
        r == bot_matches(b@, *q),
{
    let id_ok = match &q.id {
        Some(id) => b.id == *id,
        None => true,
    };
    let platform_ok = match &q.platform {
        Some(p) => b.platform == *p,
        None => true,
    };
    let status_ok = match &q.status {
        Some(st) => b.status == *st,
        None => true,
    };
    id_ok && platform_ok && status_ok
}

/// Every stored record that matches the filter, in stored order.
pub fn find_bots(s: &Vec<Bot>, q: &BotQuery) -> (r: Vec<Bot>)
    ensures
        bot_views(r@) == bots_matching(bot_views(s@), *q),
{
    let n = s.len();
    let mut r: Vec<Bot> = Vec::new();
    let mut i: usize = 0;
    while i < n
        invariant
            i <= n,
            n == s@.len(),
            bot_views(r@) == bots_matching(bot_views(s@).take(i as int), *q),
        decreases n - i,
    {
        let ghost pre = bot_views(r@);
        if bot_matches_exec(&s[i], q) {
            r.push(s[i].clone());
        }
        proof {
            lemma_bots_matching_push(bot_views(s@).take(i as int), *q, s@[i as int]@);
            assert(bot_views(s@).take(i as int + 1) =~= bot_views(s@).take(i as int).push(s@[i as int]@));
            assert(bot_views(r@) =~= bots_matching(bot_views(s@).take(i as int + 1), *q));
        }
        i = i + 1;
    }
    proof {
        assert(bot_views(s@).take(n as int) =~= bot_views(s@));
    }
    r
}

pub proof fn lemma_bots_matching_push(s: Seq<BotView>, q: BotQuery, x: BotView)
    ensures
        bots_matching(s.push(x), q) == if bot_matches(x, q) {
            bots_matching(s, q).push(x)
        } else {
            bots_matching(s, q)
        },
{
    assert(s.push(x).drop_last() =~= s);
}

pub proof fn lemma_bots_remaining_push(s: Seq<BotView>, q: BotQuery, x: BotView)
    ensures
        bots_remaining(s.push(x), q) == if bot_matches(x, q) {
            bots_remaining(s, q)
        } else {
            bots_remaining(s, q).push(x)
        },
{
    assert(s.push(x).drop_last() =~= s);
}

/// The first stored record with the identifier, if any.
pub fn find_bot_by_id(s: &Vec<Bot>, id: Uid) -> (r: Option<Bot>)
    ensures
        match r {
            Some(b) => bot_by_id(bot_views(s@), id) == Some(b@),
            None => bot_by_id(bot_views(s@), id) is None,
        },
{
    match bot_index_of(s, id) {
        Some(i) => {
            proof {
                lemma_bot_index(bot_views(s@), id);
            }
            Some(s[i].clone())
        },
        None => None,
    }
}

/// Index of the first stored record with the identifier.
fn bot_index_of(s: &Vec<Bot>, id: Uid) -> (r: Option<usize>)
    ensures
        match r {
            Some(i) => has_bot_id(bot_views(s@), id) && i == bot_index(bot_views(s@), id),
            None => !has_bot_id(bot_views(s@), id),
        },
{
    proof {
        lemma_bot_index(bot_views(s@), id);
    }
    let n = s.len();
    let mut i: usize = 0;
    while i < n
        invariant
            i <= n,
            n == s@.len(),
            forall|k: int| 0 <= k < i ==> bot_views(s@)[k].id != id,
        decreases n - i,
    {
        if s[i].id == id {
            proof {
                let vs = bot_views(s@);
                assert(vs[i as int].id == id);
                assert(has_bot_id(vs, id));
                lemma_bot_index(vs, id);
                assert(i as int == bot_index(vs, id));
            }
            return Some(i);
        }
        i = i + 1;
    }
    None
}

/// Persist a new record. Fails, changing nothing, exactly when the
/// identifier is already taken.
pub fn insert_bot(s: &mut Vec<Bot>, b: Bot) -> (r: Result<(), ApiError>)
    ensures
        !has_bot_id(bot_views(old(s)@), b@.id) ==> r == Ok::<(), ApiError>(()) && bot_views(
            final(s)@,
        ) == bot_views(old(s)@).push(b@),
        has_bot_id(bot_views(old(s)@), b@.id) ==> r == Err::<(), ApiError>(ApiError::Upstream)
            && final(s)@ == old(s)@,
{
    match bot_index_of(s, b.id) {
        Some(_) => Err(ApiError::Upstream),
        None => {
            let ghost pre = bot_views(s@);
            let ghost bv = b@;
            s.push(b);
            proof {
                assert(bot_views(s@) =~= pre.push(bv));
            }
            Ok(())
        },
    }
}

/// Replace the first record carrying the identifier. Fails, changing
/// nothing, exactly when no record carries it.
pub fn update_bot_by_id(s: &mut Vec<Bot>, id: Uid, b: Bot) -> (r: Result<(), ApiError>)
    ensures
        has_bot_id(bot_views(old(s)@), id) ==> r == Ok::<(), ApiError>(()) && bot_views(final(s)@)
            == bot_views(old(s)@).update(bot_index(bot_views(old(s)@), id), b@),
        !has_bot_id(bot_views(old(s)@), id) ==> r == Err::<(), ApiError>(ApiError::NotFound)
            && final(s)@ == old(s)@,
{
    match bot_index_of(s, id) {
        Some(i) => {
            let ghost pre = bot_views(s@);
            let ghost bv = b@;
            proof {
                lemma_bot_index(pre, id);
            }
            s.set(i, b);
            proof {
                assert(bot_views(s@) =~= pre.update(i as int, bv));
            }
            Ok(())
        },
        None => Err(ApiError::NotFound),
    }
}

/// Remove every record the filter matches; report how many went. Removing
/// by a filter nothing matches removes nothing and is not an error.
pub fn delete_bots(s: &mut Vec<Bot>, q: &BotQuery) -> (r: crate::DeleteResult)
    ensures
        bot_views(final(s)@) == bots_remaining(bot_views(old(s)@), *q),
        r.deleted_count == old(s)@.len() - final(s)@.len(),
{
    let n = s.len();
    let mut kept: Vec<Bot> = Vec::new();
    let mut i: usize = 0;
    while i < n
        invariant
            i <= n,
            n == s@.len(),
            kept@.len() <= i,
            bot_views(kept@) == bots_remaining(bot_views(s@).take(i as int), *q),
        decreases n - i,
    {
        if !bot_matches_exec(&s[i], q) {
            kept.push(s[i].clone());
        }
        proof {
            lemma_bots_remaining_push(bot_views(s@).take(i as int), *q, s@[i as int]@);
            assert(bot_views(s@).take(i as int + 1) =~= bot_views(s@).take(i as int).push(s@[i as int]@));
            assert(bot_views(kept@) =~= bots_remaining(bot_views(s@).take(i as int + 1), *q));
        }
        i = i + 1;
    }
    proof {
        assert(bot_views(s@).take(n as int) =~= bot_views(s@));
    }
    let deleted = (n - kept.len()) as u64;
    *s = kept;
    crate::DeleteResult { deleted_count: deleted }
}

} // verus!
