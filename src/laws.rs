//! Properties of the cache that hold across calls.

use vstd::prelude::*;

use crate::buffer::{
    deleted, first_index, holds_id, ids_unique, inserted, is_first, lemma_first_index, updated,
    CAPACITY,
};
use crate::cache::{added, buffer_of, edited, removed};
use crate::message::{
    merged, reports_attachments, CachedMessageView, ContentView, Message, MessageDelete,
    MessageUpdate,
};
use twilight_model::channel::embed::Embed;

verus! {

/// `s` after each entry of `es` is inserted in turn.
pub open spec fn inserted_all(s: Seq<CachedMessageView>, es: Seq<CachedMessageView>) -> Seq<CachedMessageView>
    decreases es.len(),
{
    if es.len() == 0 {
        s
    } else {
        inserted_all(inserted(s, es[0]), es.drop_first())
    }
}

/// `e` after each edit of `us` in turn.
pub open spec fn merged_all(e: CachedMessageView, us: Seq<MessageUpdate>) -> CachedMessageView
    decreases us.len(),
{
    if us.len() == 0 {
        e
    } else {
        merged_all(merged(e, us[0]), us.drop_first())
    }
}

/// However many messages are inserted, a buffer within capacity stays within capacity.
pub proof fn lemma_inserts_stay_within_capacity(s: Seq<CachedMessageView>, es: Seq<CachedMessageView>)
    requires
        s.len() <= CAPACITY,
    ensures
        inserted_all(s, es).len() <= CAPACITY,
    decreases es.len(),
{
    if es.len() > 0 {
        lemma_inserts_stay_within_capacity(inserted(s, es[0]), es.drop_first());
    }
}

/// While there is room, inserted messages are appended in the order of insertion.
pub proof fn lemma_inserts_append_in_order(s: Seq<CachedMessageView>, es: Seq<CachedMessageView>)
    requires
        s.len() + es.len() <= CAPACITY,
    ensures
        inserted_all(s, es) == s + es,
    decreases es.len(),
{
    if es.len() == 0 {
        assert(s + es =~= s);
    } else {
        lemma_inserts_append_in_order(s.push(es[0]), es.drop_first());
        assert(s.push(es[0]) + es.drop_first() =~= s + es);
    }
}

/// Inserting at most `CAPACITY` messages into an empty buffer leaves exactly
/// those messages, in the order of insertion.
pub proof fn lemma_empty_buffer_keeps_insertion_order(es: Seq<CachedMessageView>)
    requires
        es.len() <= CAPACITY,
    ensures
        inserted_all(Seq::empty(), es) == es,
{
    lemma_inserts_append_in_order(Seq::empty(), es);
    assert(Seq::<CachedMessageView>::empty() + es =~= es);
}

/// Inserting into a full buffer drops exactly the oldest entry and appends the new one.
pub proof fn lemma_full_buffer_evicts_oldest(s: Seq<CachedMessageView>, e: CachedMessageView)
    requires
        s.len() == CAPACITY,
    ensures
        inserted(s, e) == s.subrange(1, CAPACITY as int).push(e),
        inserted(s, e).len() == CAPACITY,
        inserted(s, e).last() == e,
{
    assert(s.drop_first() =~= s.subrange(1, CAPACITY as int));
}

/// An edit of a valid entry that brings new embeds but no text and no attachment
/// keeps the text and takes the new embeds.
pub proof fn lemma_embeds_only_edit_keeps_text(
    e: CachedMessageView,
    u: MessageUpdate,
    text: Seq<char>,
    embeds: Seq<Embed>,
    new_embeds: Vec<Embed>,
)
    requires
        e.content == (ContentView::Valid { text, embeds }),
        u.content is None,
        u.embeds == Some(new_embeds),
        !reports_attachments(u),
    ensures
        merged(e, u) == (CachedMessageView {
            id: e.id,
            content: ContentView::Valid { text, embeds: new_embeds@ },
        }),
{
}

/// An edit that reports attachments makes any entry non-mergeable.
pub proof fn lemma_attachments_make_unmergeable(e: CachedMessageView, u: MessageUpdate)
    requires
        reports_attachments(u),
    ensures
        merged(e, u) == (CachedMessageView { id: e.id, content: ContentView::AttachmentsOrComponents }),
{
}

/// A non-mergeable entry stays non-mergeable, and keeps its id, whatever edits follow.
pub proof fn lemma_unmergeable_is_final(e: CachedMessageView, us: Seq<MessageUpdate>)
    requires
        e.content == ContentView::AttachmentsOrComponents,
    ensures
        merged_all(e, us) == e,
    decreases us.len(),
{
    if us.len() > 0 {
        lemma_unmergeable_is_final(merged(e, us[0]), us.drop_first());
    }
}

/// In a buffer whose ids are unique, deleting a present id removes exactly its
/// entry and keeps the others in order.
pub proof fn lemma_delete_present(s: Seq<CachedMessageView>, id: u64)
    requires
        ids_unique(s),
        holds_id(s, id),
    ensures
        deleted(s, id).len() == s.len() - 1,
        !holds_id(deleted(s, id), id),
        exists|i: int| 0 <= i < s.len() && s[i].id == id && deleted(s, id) == s.remove(i),
{
    let k = choose|k: int| 0 <= k < s.len() && s[k].id == id;
    assert(is_first(s, id, k));
    lemma_first_index(s, id, k);
    let r = s.remove(k);
    assert forall|m: int| 0 <= m < r.len() implies r[m].id != id by {
        if m < k {
            assert(s[m].id != s[k].id);
        } else {
            assert(s[m + 1].id != s[k].id);
        }
    }
}

/// Deleting an id that no entry has leaves the buffer as it was.
pub proof fn lemma_delete_absent(s: Seq<CachedMessageView>, id: u64)
    requires
        !holds_id(s, id),
    ensures
        deleted(s, id) == s,
{
}

/// Inserting a message whose id is new keeps the ids of a buffer unique.
pub proof fn lemma_insert_keeps_ids_unique(s: Seq<CachedMessageView>, e: CachedMessageView)
    requires
        ids_unique(s),
        !holds_id(s, e.id),
    ensures
        ids_unique(inserted(s, e)),
{
    let r = inserted(s, e);
    assert forall|i: int, j: int| 0 <= i < j < r.len() implies r[i].id != r[j].id by {
        if s.len() < CAPACITY {
            if j == s.len() {
                assert(r[i] == s[i]);
            } else {
                assert(r[i] == s[i] && r[j] == s[j]);
            }
        } else {
            if j == s.len() - 1 {
                assert(r[i] == s[i + 1]);
            } else {
                assert(r[i] == s[i + 1] && r[j] == s[j + 1]);
            }
        }
    }
}

/// An edit keeps every id in its place, so unique ids stay unique.
pub proof fn lemma_update_keeps_ids(s: Seq<CachedMessageView>, u: MessageUpdate)
    ensures
        updated(s, u).len() == s.len(),
        forall|i: int| 0 <= i < s.len() ==> #[trigger] updated(s, u)[i].id == s[i].id,
        ids_unique(s) ==> ids_unique(updated(s, u)),
{
    if holds_id(s, u.id) {
        let k = choose|k: int| 0 <= k < s.len() && s[k].id == u.id;
        let f = first_index(s, u.id);
        assert(is_first(s, u.id, f)) by {
            // the lowest matching position exists
            lemma_some_first(s, u.id, k);
        }
    }
}

/// Some position is the first that matches, when any does.
proof fn lemma_some_first(s: Seq<CachedMessageView>, id: u64, k: int)
    requires
        0 <= k < s.len(),
        s[k].id == id,
    ensures
        is_first(s, id, first_index(s, id)),
    decreases k,
{
    if exists|j: int| 0 <= j < k && s[j].id == id {
        let j = choose|j: int| 0 <= j < k && s[j].id == id;
        lemma_some_first(s, id, j);
    } else {
        assert(is_first(s, id, k));
    }
}

/// Deleting keeps the ids of a buffer unique.
pub proof fn lemma_delete_keeps_ids_unique(s: Seq<CachedMessageView>, id: u64)
    requires
        ids_unique(s),
    ensures
        ids_unique(deleted(s, id)),
{
    if holds_id(s, id) {
        let k = choose|k: int| 0 <= k < s.len() && s[k].id == id;
        lemma_some_first(s, id, k);
        let f = first_index(s, id);
        let r = s.remove(f);
        assert forall|i: int, j: int| 0 <= i < j < r.len() implies r[i].id != r[j].id by {
            let a = if i < f { i } else { i + 1 };
            let b = if j < f { j } else { j + 1 };
            assert(r[i] == s[a] && r[j] == s[b]);
        }
    }
}

/// A new message changes only its own channel, and what it does there depends
/// on that channel's buffer alone.
pub proof fn lemma_add_is_isolated(c1: Map<u64, Seq<CachedMessageView>>, c2: Map<u64, Seq<CachedMessageView>>, m: Message)
    requires
        buffer_of(c1, m.channel_id) == buffer_of(c2, m.channel_id),
    ensures
        added(c1, m).remove(m.channel_id) == c1.remove(m.channel_id),
        buffer_of(added(c1, m), m.channel_id) == buffer_of(added(c2, m), m.channel_id),
{
    assert(added(c1, m).remove(m.channel_id) =~= c1.remove(m.channel_id));
}

/// An edit changes only its own channel, and what it does there depends on that
/// channel's buffer alone.
pub proof fn lemma_edit_is_isolated(c1: Map<u64, Seq<CachedMessageView>>, c2: Map<u64, Seq<CachedMessageView>>, u: MessageUpdate)
    requires
        buffer_of(c1, u.channel_id) == buffer_of(c2, u.channel_id),
    ensures
        edited(c1, u).remove(u.channel_id) == c1.remove(u.channel_id),
        buffer_of(edited(c1, u), u.channel_id) == buffer_of(edited(c2, u), u.channel_id),
{
    assert(edited(c1, u).remove(u.channel_id) =~= c1.remove(u.channel_id));
    assert(updated(Seq::empty(), u) == Seq::<CachedMessageView>::empty());
}

/// A delete notification changes only its own channel, and what it does there
/// depends on that channel's buffer alone.
pub proof fn lemma_delete_is_isolated(c1: Map<u64, Seq<CachedMessageView>>, c2: Map<u64, Seq<CachedMessageView>>, d: MessageDelete)
    requires
        buffer_of(c1, d.channel_id) == buffer_of(c2, d.channel_id),
    ensures
        removed(c1, d).remove(d.channel_id) == c1.remove(d.channel_id),
        buffer_of(removed(c1, d), d.channel_id) == buffer_of(removed(c2, d), d.channel_id),
{
    assert(removed(c1, d).remove(d.channel_id) =~= c1.remove(d.channel_id));
    assert(deleted(Seq::empty(), d.id) == Seq::<CachedMessageView>::empty());
}

} // verus!
