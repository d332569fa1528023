//! The per-channel store of message buffers, and the three notifications it handles.

use dashmap::DashMap;

use vstd::prelude::*;

use crate::buffer::{deleted, inserted, updated, MessageBuffer, CAPACITY};
use crate::message::{entry_of, CachedMessage, CachedMessageView, Message, MessageDelete, MessageUpdate};

verus! {

/// A concurrent map is opaque here; what it holds is named by `channel_buffers`.
#[verifier::external_type_specification]
#[verifier::external_body]
#[verifier::reject_recursive_types(K)]
#[verifier::reject_recursive_types(V)]
#[verifier::reject_recursive_types(S)]
pub struct ExDashMap<K, V, S>(dashmap::DashMap<K, V, S>);

/// The map from channel id to that channel's buffer.
pub type ChannelMap = DashMap<u64, MessageBuffer>;

/// The buffers that a channel map holds, by channel id.
pub uninterp spec fn channel_buffers(m: ChannelMap) -> Map<u64, MessageBuffer>;

/// Relies on `DashMap::new`: a new map holds no entry.
#[verifier::external_body]
fn new_store() -> (r: ChannelMap)
    ensures
        channel_buffers(r).dom().is_empty(),
{
    DashMap::new()
}

/// Relies on `DashMap::insert`: afterwards `k` maps to `v` and every other key is as before.
#[verifier::external_body]
fn store_insert(m: &mut ChannelMap, k: u64, v: MessageBuffer)
    ensures
        channel_buffers(*final(m)) == channel_buffers(*old(m)).insert(k, v),
{
    m.insert(k, v);
}

/// Relies on `DashMap::remove`: the entry under `k` is taken out and its value returned.
#[verifier::external_body]
fn store_remove(m: &mut ChannelMap, k: u64) -> (r: Option<MessageBuffer>)
    ensures
        channel_buffers(*final(m)) == channel_buffers(*old(m)).remove(k),
        match r {
            Some(v) => channel_buffers(*old(m)).contains_key(k) && v == channel_buffers(*old(m))[k],
            None => !channel_buffers(*old(m)).contains_key(k),
        },
{
    m.remove(&k).map(|(_, v)| v)
}

/// Relies on `DashMap::view`: the closure runs on the value under `k`, if there is
/// one, and what it returns is returned; the closure copies the buffer's entries.
#[verifier::external_body]
fn store_snapshot(m: &ChannelMap, k: u64) -> (r: Option<Vec<CachedMessage>>)
    ensures
        match r {
            Some(v) => channel_buffers(*m).contains_key(k) && v@.map_values(|e: CachedMessage| e@)
                == channel_buffers(*m)[k]@,
            None => !channel_buffers(*m).contains_key(k),
        },
{
    m.view(&k, |_, b| b.snapshot())
}

/// The buffer of `channel` in `c`, empty if the channel has none yet.
pub open spec fn buffer_of(c: Map<u64, Seq<CachedMessageView>>, channel: u64) -> Seq<CachedMessageView> {
    if c.contains_key(channel) {
        c[channel]
    } else {
        Seq::empty()
    }
}

/// The cache `c` after the new message `m`.
pub open spec fn added(c: Map<u64, Seq<CachedMessageView>>, m: Message) -> Map<u64, Seq<CachedMessageView>> {
    c.insert(m.channel_id, inserted(buffer_of(c, m.channel_id), entry_of(m)))
}

/// The cache `c` after the edit `u`; unchanged when its channel has no buffer.
pub open spec fn edited(c: Map<u64, Seq<CachedMessageView>>, u: MessageUpdate) -> Map<u64, Seq<CachedMessageView>> {
    if c.contains_key(u.channel_id) {
        c.insert(u.channel_id, updated(c[u.channel_id], u))
    } else {
        c
    }
}

/// The cache `c` after the delete notification `d`; unchanged when its channel has no buffer.
pub open spec fn removed(c: Map<u64, Seq<CachedMessageView>>, d: MessageDelete) -> Map<u64, Seq<CachedMessageView>> {
    if c.contains_key(d.channel_id) {
        c.insert(d.channel_id, deleted(c[d.channel_id], d.id))
    } else {
        c
    }
}

/// Recently seen messages, one bounded buffer per channel.
///
/// The notifications take `&mut self`, so that each contract can say how the
/// cache changes; callers on several threads share it behind a lock.
pub struct Cache {
    messages: ChannelMap,
}

impl View for Cache {
    type V = Map<u64, Seq<CachedMessageView>>;

    closed spec fn view(&self) -> Map<u64, Seq<CachedMessageView>> {
        channel_buffers(self.messages).map_values(|b: MessageBuffer| b@)
    }
}

impl Cache {
    /// Every channel's buffer is within capacity.
    pub open spec fn wf(&self) -> bool {
        forall|k: u64| self@.contains_key(k) ==> #[trigger] self@[k].len() <= CAPACITY
    }

    /// An empty cache.
    pub fn new() -> (r: Cache)
        ensures
            r@ == Map::<u64, Seq<CachedMessageView>>::empty(),
            r.wf(),
    {
        let r = Cache { messages: new_store() };
        assert(r@ =~= Map::<u64, Seq<CachedMessageView>>::empty());
        r
    }

    /// A copy of the messages cached for `channel_id`, oldest first, or `None`
    /// when the channel has no buffer.
    pub fn messages(&self, channel_id: u64) -> (r: Option<Vec<CachedMessage>>)
        ensures
            match r {
                Some(v) => self@.contains_key(channel_id) && v@.map_values(|e: CachedMessage| e@)
                    == self@[channel_id],
                None => !self@.contains_key(channel_id),
            },
    {
        store_snapshot(&self.messages, channel_id)
    }

    /// Takes the buffer of `channel` out of the map, or a new empty one.
    fn take_or_create(&mut self, channel: u64) -> (b: MessageBuffer)
        requires
            old(self).wf(),
        ensures
            b@ == buffer_of(old(self)@, channel),
            b.wf(),
            final(self)@ == old(self)@.remove(channel),
    {
        let r = store_remove(&mut self.messages, channel);
        assert(self@ =~= old(self)@.remove(channel));
        match r {
            Some(b) => b,
            None => MessageBuffer::new(),
        }
    }

    /// Records a newly seen message at the back of its channel's buffer, creating
    /// the buffer on the channel's first message and evicting the oldest entry
    /// when the buffer is full.
    pub fn add_message(&mut self, message: Message)
        requires
            old(self).wf(),
        ensures
            final(self)@ == added(old(self)@, message),
            final(self).wf(),
    {
        let ghost m = message;
        let channel = message.channel_id;
        let mut b = self.take_or_create(channel);
        let ghost mid = self@;
        b.push(CachedMessage::from_message(message));
        let ghost nb = b@;
        assert(nb == inserted(buffer_of(old(self)@, channel), entry_of(m)));
        store_insert(&mut self.messages, channel, b);
        assert(self@ =~= mid.insert(channel, nb));
        assert(self@ =~= old(self)@.insert(channel, inserted(buffer_of(old(self)@, channel), entry_of(m))));
    }

    /// Merges an edit into the cached message it names. Nothing changes when the
    /// channel or the message is not cached.
    pub fn update_message(&mut self, message: MessageUpdate)
        requires
            old(self).wf(),
        ensures
            final(self)@ == edited(old(self)@, message),
            final(self).wf(),
    {
        let ghost u = message;
        let channel = message.channel_id;
        let r = store_remove(&mut self.messages, channel);
        match r {
            Some(mut b) => {
                assert(b@ == old(self)@[channel]);
                b.update(message);
                store_insert(&mut self.messages, channel, b);
                assert(self@ =~= old(self)@.insert(channel, updated(old(self)@[channel], u)));
            },
            None => {
                assert(self@ =~= old(self)@);
            },
        }
    }

    /// Removes the cached message that a delete notification names. Nothing
    /// changes when the channel or the message is not cached.
    pub fn delete_message(&mut self, message: MessageDelete)
        requires
            old(self).wf(),
        ensures
            final(self)@ == removed(old(self)@, message),
            final(self).wf(),
    {
        let channel = message.channel_id;
        let r = store_remove(&mut self.messages, channel);
        match r {
            Some(mut b) => {
                assert(b@ == old(self)@[channel]);
                b.remove(message.id);
                store_insert(&mut self.messages, channel, b);
                assert(self@ =~= old(self)@.insert(channel, deleted(old(self)@[channel], message.id)));
            },
            None => {
                assert(self@ =~= old(self)@);
            },
        }
    }
}

} // verus!
