//! The bounded, insertion-ordered buffer of one channel.

use std::collections::VecDeque;

use vstd::prelude::*;

use crate::message::{merged, CachedMessage, CachedMessageView, MessageUpdate};

verus! {

/// How many messages a channel keeps.
pub const CAPACITY: usize = 20;

/// Whether some entry of `s` has the id `id`.
pub open spec fn holds_id(s: Seq<CachedMessageView>, id: u64) -> bool {
    exists|i: int| 0 <= i < s.len() && s[i].id == id
}

/// Whether `i` is the first position of `s` whose entry has the id `id`.
pub open spec fn is_first(s: Seq<CachedMessageView>, id: u64, i: int) -> bool {
    &&& 0 <= i < s.len()
    &&& s[i].id == id
    &&& forall|j: int| 0 <= j < i ==> s[j].id != id
}

/// The first position of `s` whose entry has the id `id` (meaningful when `holds_id(s, id)`).
pub open spec fn first_index(s: Seq<CachedMessageView>, id: u64) -> int {
    choose|i: int| is_first(s, id, i)
}

/// No two entries of `s` share an id.
pub open spec fn ids_unique(s: Seq<CachedMessageView>) -> bool {
    forall|i: int, j: int| 0 <= i < j < s.len() ==> s[i].id != s[j].id
}

/// `s` after appending `e`, the oldest entry leaving first when `s` is full.
pub open spec fn inserted(s: Seq<CachedMessageView>, e: CachedMessageView) -> Seq<CachedMessageView> {
    if s.len() < CAPACITY {
        s.push(e)
    } else {
        s.drop_first().push(e)
    }
}

/// `s` after the edit `u`: the first entry with the edit's id is merged, the rest is kept.
pub open spec fn updated(s: Seq<CachedMessageView>, u: MessageUpdate) -> Seq<CachedMessageView> {
    if holds_id(s, u.id) {
        let i = first_index(s, u.id);
        s.update(i, merged(s[i], u))
    } else {
        s
    }
}

/// `s` without the first entry whose id is `id`; unchanged if there is none.
pub open spec fn deleted(s: Seq<CachedMessageView>, id: u64) -> Seq<CachedMessageView> {
    if holds_id(s, id) {
        s.remove(first_index(s, id))
    } else {
        s
    }
}

/// The first matching position is the one that `first_index` names.
pub proof fn lemma_first_index(s: Seq<CachedMessageView>, id: u64, i: int)
    requires
        is_first(s, id, i),
    ensures
        holds_id(s, id),
        first_index(s, id) == i,
{
    let j = first_index(s, id);
    assert(is_first(s, id, j));
    if j < i {
        assert(s[j].id != id);
    } else if i < j {
        assert(s[i].id != id);
    }
}

/// The messages of one channel, oldest first.
pub struct MessageBuffer {
    entries: VecDeque<CachedMessage>,
}

impl View for MessageBuffer {
    type V = Seq<CachedMessageView>;

    closed spec fn view(&self) -> Seq<CachedMessageView> {
        self.entries@.map_values(|e: CachedMessage| e@)
    }
}

impl MessageBuffer {
    /// The buffer never holds more than `CAPACITY` entries.
    pub open spec fn wf(&self) -> bool {
        self@.len() <= CAPACITY
    }

    /// An empty buffer.
    pub fn new() -> (r: MessageBuffer)
        ensures
            r@ == Seq::<CachedMessageView>::empty(),
            r.wf(),
    {
        let r = MessageBuffer { entries: VecDeque::with_capacity(CAPACITY) };
        assert(r@ =~= Seq::<CachedMessageView>::empty());
        r
    }

    /// How many entries the buffer holds.
    pub fn len(&self) -> (r: usize)
        ensures
            r == self@.len(),
    {
        self.entries.len()
    }

    /// A copy of the entries, oldest first.
    pub fn snapshot(&self) -> (r: Vec<CachedMessage>)
        ensures
            r@.map_values(|e: CachedMessage| e@) == self@,
    {
        let mut r: Vec<CachedMessage> = Vec::with_capacity(self.entries.len());
        let n = self.entries.len();
        let mut i: usize = 0;
        while i < n
            invariant
                n == self.entries@.len(),
                i <= n,
                r@.len() == i,
                forall|j: int| 0 <= j < i ==> #[trigger] r@[j]@ == self.entries@[j]@,
            decreases n - i,
        {
            r.push(self.entries[i].clone());
            i = i + 1;
        }
        assert(r@.map_values(|e: CachedMessage| e@) =~= self@);
        r
    }

    /// Appends `entry`, evicting the oldest entry first when the buffer is full.
    pub fn push(&mut self, entry: CachedMessage)
        requires
            old(self).wf(),
        ensures
            final(self)@ == inserted(old(self)@, entry@),
            final(self).wf(),
    {
        let ghost e = entry@;
        if self.entries.len() == CAPACITY {
            self.entries.pop_front();
        }
        self.entries.push_back(entry);
        assert(self@ =~= inserted(old(self)@, e));
    }

    /// The position of the first entry with id `id`, if any.
    fn position(&self, id: u64) -> (r: Option<usize>)
        ensures
            match r {
                Some(i) => is_first(self@, id, i as int),
                None => !holds_id(self@, id),
            },
    {
        let n = self.entries.len();
        let mut i: usize = 0;
        while i < n
            invariant
                n == self@.len(),
                i <= n,
                forall|j: int| 0 <= j < i ==> self@[j].id != id,
            decreases n - i,
        {
            if self.entries[i].id == id {
                return Some(i);
            }
            i = i + 1;
        }
        None
    }

    /// Merges the edit `u` into the first entry with its id. Returns whether one was found.
    pub fn update(&mut self, u: MessageUpdate) -> (found: bool)
        requires
            old(self).wf(),
        ensures
            found == holds_id(old(self)@, u.id),
            final(self)@ == updated(old(self)@, u),
            final(self).wf(),
    {
        let ghost s = self@;
        match self.position(u.id) {
            Some(i) => {
                proof {
                    lemma_first_index(s, u.id, i as int);
                }
                let ghost uu = u;
                let e = self.entries.remove(i).unwrap();
                let merged_entry = e.merge(u);
                self.entries.insert(i, merged_entry);
                assert(self@ =~= updated(s, uu));
                true
            },
            None => false,
        }
    }

    /// Removes the first entry with id `id`, keeping the order of the others.
    /// Returns whether one was found.
    pub fn remove(&mut self, id: u64) -> (found: bool)
        requires
            old(self).wf(),
        ensures
            found == holds_id(old(self)@, id),
            final(self)@ == deleted(old(self)@, id),
            final(self).wf(),
    {
        let ghost s = self@;
        match self.position(id) {
            Some(i) => {
                proof {
                    lemma_first_index(s, id, i as int);
                }
                self.entries.remove(i);
                assert(self@ =~= deleted(s, id));
                true
            },
            None => false,
        }
    }
}

} // verus!
