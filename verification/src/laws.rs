//! Laws the resource operations obey, stated over the stored values.

use vstd::prelude::*;
use crate::ids::Uid;
use crate::bots::{
    BotView, BotQuery, bot_query_empty, bot_matches, bots_matching, bots_remaining, has_bot_id,
    bot_index, bot_by_id, bot_id_query, lemma_bot_index,
};
use crate::tasks::{
    TaskView, BotTaskQuery, task_query_empty, task_matches, tasks_matching, tasks_remaining,
    has_task_id, task_by_id, task_id_query, task_index, lemma_task_index,
};
use crate::sources::{
    SourceView, SocialSourceQuery, source_query_empty, source_matches, sources_matching,
    sources_remaining, has_source_id, source_by_id, source_id_query, source_index, lemma_source_index,
};

verus! {

/// A filter with no field set matches every stored bot: listing with the
/// empty filter returns the whole collection.
pub proof fn lemma_empty_bot_query_matches_all(s: Seq<BotView>, q: BotQuery)
    requires
        bot_query_empty(q),
    ensures
        bots_matching(s, q) == s,
    decreases s.len(),
{
    if s.len() > 0 {
        lemma_empty_bot_query_matches_all(s.drop_last(), q);
        assert(s.drop_last().push(s.last()) =~= s);
    } else {
        assert(bots_matching(s, q) =~= s);
    }
}

/// A filter with no field set matches every stored task.
pub proof fn lemma_empty_task_query_matches_all(s: Seq<TaskView>, q: BotTaskQuery)
    requires
        task_query_empty(q),
    ensures
        tasks_matching(s, q) == s,
    decreases s.len(),
{
    if s.len() > 0 {
        lemma_empty_task_query_matches_all(s.drop_last(), q);
        assert(s.drop_last().push(s.last()) =~= s);
    } else {
        assert(tasks_matching(s, q) =~= s);
    }
}

/// A filter with no field set matches every stored source.
pub proof fn lemma_empty_source_query_matches_all(s: Seq<SourceView>, q: SocialSourceQuery)
    requires
        source_query_empty(q),
    ensures
        sources_matching(s, q) == s,
    decreases s.len(),
{
    if s.len() > 0 {
        lemma_empty_source_query_matches_all(s.drop_last(), q);
        assert(s.drop_last().push(s.last()) =~= s);
    } else {
        assert(sources_matching(s, q) =~= s);
    }
}

/// A bot persisted under an identifier no stored record carries is found
/// again, unchanged, by a lookup of that identifier.
pub proof fn lemma_create_then_get_bot(s: Seq<BotView>, b: BotView)
    requires
        !has_bot_id(s, b.id),
    ensures
        bot_by_id(s.push(b), b.id) == Some(b),
{
    let t = s.push(b);
    assert(t[s.len() as int] == b);
    assert(has_bot_id(t, b.id));
    lemma_bot_index(t, b.id);
    let i = bot_index(t, b.id);
    if i < s.len() {
        assert(s[i] == t[i]);
    }
}

/// A task persisted under an identifier no stored record carries is found
/// again, unchanged, by a lookup of that identifier.
pub proof fn lemma_create_then_get_task(s: Seq<TaskView>, t: TaskView)
    requires
        !has_task_id(s, t.id),
    ensures
        task_by_id(s.push(t), t.id) == Some(t),
{
    let w = s.push(t);
    assert(w[s.len() as int] == t);
    assert(has_task_id(w, t.id));
    lemma_task_index(w, t.id);
    let i = task_index(w, t.id);
    if i < s.len() {
        assert(s[i] == w[i]);
    }
}

/// A source persisted under an identifier no stored record carries is found
/// again, unchanged, by a lookup of that identifier.
pub proof fn lemma_create_then_get_source(s: Seq<SourceView>, v: SourceView)
    requires
        !has_source_id(s, v.id),
    ensures
        source_by_id(s.push(v), v.id) == Some(v),
{
    let w = s.push(v);
    assert(w[s.len() as int] == v);
    assert(has_source_id(w, v.id));
    lemma_source_index(w, v.id);
    let i = source_index(w, v.id);
    if i < s.len() {
        assert(s[i] == w[i]);
    }
}

/// Deleting by an identifier no stored bot carries removes nothing.
pub proof fn lemma_delete_missing_bot_id(s: Seq<BotView>, id: Uid)
    requires
        !has_bot_id(s, id),
    ensures
        bots_remaining(s, bot_id_query(id)) == s,
    decreases s.len(),
{
    if s.len() > 0 {
        assert forall|i: int| 0 <= i < s.drop_last().len() implies s.drop_last()[i].id != id by {
            assert(s.drop_last()[i] == s[i]);
        }
        lemma_delete_missing_bot_id(s.drop_last(), id);
        assert(!bot_matches(s.last(), bot_id_query(id)));
        assert(s.drop_last().push(s.last()) =~= s);
    } else {
        assert(bots_remaining(s, bot_id_query(id)) =~= s);
    }
}

/// Deleting by an identifier no stored task carries removes nothing.
pub proof fn lemma_delete_missing_task_id(s: Seq<TaskView>, id: Uid)
    requires
        !has_task_id(s, id),
    ensures
        tasks_remaining(s, task_id_query(id)) == s,
    decreases s.len(),
{
    if s.len() > 0 {
        assert forall|i: int| 0 <= i < s.drop_last().len() implies s.drop_last()[i].id != id by {
            assert(s.drop_last()[i] == s[i]);
        }
        lemma_delete_missing_task_id(s.drop_last(), id);
        assert(!task_matches(s.last(), task_id_query(id)));
        assert(s.drop_last().push(s.last()) =~= s);
    } else {
        assert(tasks_remaining(s, task_id_query(id)) =~= s);
    }
}

/// Deleting by an identifier no stored source carries removes nothing.
pub proof fn lemma_delete_missing_source_id(s: Seq<SourceView>, id: Uid)
    requires
        !has_source_id(s, id),
    ensures
        sources_remaining(s, source_id_query(id)) == s,
    decreases s.len(),
{
    if s.len() > 0 {
        assert forall|i: int| 0 <= i < s.drop_last().len() implies s.drop_last()[i].id != id by {
            assert(s.drop_last()[i] == s[i]);
        }
        lemma_delete_missing_source_id(s.drop_last(), id);
        assert(!source_matches(s.last(), source_id_query(id)));
        assert(s.drop_last().push(s.last()) =~= s);
    } else {
        assert(sources_remaining(s, source_id_query(id)) =~= s);
    }
}

/// A deletion splits the collection exactly: every record either matches
/// the filter and is removed, or does not and remains.
pub proof fn lemma_bot_delete_partition(s: Seq<BotView>, q: BotQuery)
    ensures
        bots_matching(s, q).len() + bots_remaining(s, q).len() == s.len(),
    decreases s.len(),
{
    if s.len() > 0 {
        lemma_bot_delete_partition(s.drop_last(), q);
    }
}

/// A deletion splits the collection exactly: every record either matches
/// the filter and is removed, or does not and remains.
pub proof fn lemma_task_delete_partition(s: Seq<TaskView>, q: BotTaskQuery)
    ensures
        tasks_matching(s, q).len() + tasks_remaining(s, q).len() == s.len(),
    decreases s.len(),
{
    if s.len() > 0 {
        lemma_task_delete_partition(s.drop_last(), q);
    }
}

/// A deletion splits the collection exactly: every record either matches
/// the filter and is removed, or does not and remains.
pub proof fn lemma_source_delete_partition(s: Seq<SourceView>, q: SocialSourceQuery)
    ensures
        sources_matching(s, q).len() + sources_remaining(s, q).len() == s.len(),
    decreases s.len(),
{
    if s.len() > 0 {
        lemma_source_delete_partition(s.drop_last(), q);
    }
}

} // verus!
