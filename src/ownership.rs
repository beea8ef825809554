//! Ownership of the message text that a result record refers to.
//!
//! Heap-backed texts live in a handle table: a successful call under an
//! allocating mode stores its text in a fresh slot and hands out the slot's
//! index; releasing the handle empties the slot. Handles are never reused,
//! so a released handle can never come to name another text.
use vstd::prelude::*;
use crate::c_text::is_c_text;

verus! {

/// Who reclaims the message text of a successful call, fixed per build of
/// the boundary.
pub enum OwnershipMode {
    /// The message is a process-wide constant; nothing is ever released.
    Static,
    /// The message is allocated for the caller, who releases it exactly once.
    CallerReleased,
    /// Allocated as under `CallerReleased`, but the host never releases it:
    /// every successful call leaks one text. Unsafe by construction and
    /// never the default; kept only to show the hazard.
    Leaking,
}

/// What the `message` field of a result record refers to.
#[derive(PartialEq, Eq, Structural, Clone, Copy, Debug)]
pub enum Message {
    /// No message (the null reference).
    Absent,
    /// The static acknowledgment text, which is never released.
    Static,
    /// A heap-backed text in the handle table, owned by the caller.
    Owned(usize),
}

/// The slots of the handle table as values: `Some(text)` for a live text,
/// `None` for one that was released.
pub type Slots = Seq<Option<Seq<u8>>>;

/// `h` names a live text in `slots`.
pub open spec fn slot_live(slots: Slots, h: int) -> bool {
    0 <= h < slots.len() && slots[h] is Some
}

/// The handles of all live texts: the allocations not yet reclaimed.
pub open spec fn live_handles(slots: Slots) -> Set<int> {
    Set::new(|h: int| slot_live(slots, h))
}

/// `after` is `before` with `text` stored under the fresh handle `h`.
pub open spec fn allocated(before: Slots, after: Slots, h: int, text: Seq<u8>) -> bool {
    h == before.len() && after == before.push(Some(text))
}

/// `after` is `before` with the text under `h` reclaimed.
pub open spec fn released(before: Slots, after: Slots, h: int) -> bool {
    after == before.update(h, None)
}

/// A table of heap-backed message texts, addressed by handle.
pub struct TextTable {
    slots: Vec<Option<Vec<u8>>>,
}

impl View for TextTable {
    type V = Slots;

    closed spec fn view(&self) -> Slots {
        self.slots@.map_values(|o: Option<Vec<u8>>| opt_view(o))
    }
}

/// The value of an optional byte vector.
pub open spec fn opt_view(o: Option<Vec<u8>>) -> Option<Seq<u8>> {
    match o {
        Some(v) => Some(v@),
        None => None,
    }
}

impl TextTable {
    /// Every live text in the table is a well-formed null-terminated text.
    pub open spec fn wf(&self) -> bool {
        forall|h: int| #[trigger] slot_live(self@, h) ==> is_c_text(self@[h]->0)
    }

    /// `h` names a live text in this table.
    pub open spec fn live(&self, h: int) -> bool {
        slot_live(self@, h)
    }

    /// An empty table.
    pub fn new() -> (t: TextTable)
        ensures
            t@ == Seq::<Option<Seq<u8>>>::empty(),
            t.wf(),
    {
        let t = TextTable { slots: Vec::new() };
        assert(t@ =~= Seq::<Option<Seq<u8>>>::empty());
        t
    }

    /// The number of handles handed out so far.
    pub fn len(&self) -> (r: usize)
        ensures
            r == self@.len(),
    {
        self.slots.len()
    }

    /// Whether `h` names a live text.
    pub fn is_live(&self, h: usize) -> (r: bool)
        ensures
            r == self.live(h as int),
    {
        h < self.slots.len() && self.slots[h].is_some()
    }

    /// The live text under `h`.
    pub fn text(&self, h: usize) -> (r: &Vec<u8>)
        requires
            self.live(h as int),
        ensures
            self@[h as int] == Some(r@),
    {
        self.slots[h].as_ref().unwrap()
    }

    /// Stores `text` under a fresh handle.
    pub(crate) fn allocate(&mut self, text: Vec<u8>) -> (h: usize)
        requires
            old(self).wf(),
            is_c_text(text@),
        ensures
            final(self).wf(),
            allocated(old(self)@, final(self)@, h as int, text@),
    {
        let h = self.slots.len();
        self.slots.push(Some(text));
        assert(self@ =~= old(self)@.push(Some(text@)));
        assert forall|i: int| #[trigger] slot_live(self@, i) implies is_c_text(self@[i]->0) by {
            if i < h {
                assert(slot_live(old(self)@, i));
            }
        }
        h
    }

    /// Reclaims the text under `h`.
    pub(crate) fn release(&mut self, h: usize)
        requires
            old(self).wf(),
            old(self).live(h as int),
        ensures
            final(self).wf(),
            released(old(self)@, final(self)@, h as int),
    {
        self.slots.set(h, None);
        assert(self@ =~= old(self)@.update(h as int, None));
        assert forall|i: int| #[trigger] slot_live(self@, i) implies is_c_text(self@[i]->0) by {
            assert(slot_live(old(self)@, i));
        }
    }
}

/// A text allocated for one successful call and then released once through
/// its handle leaves the table with exactly the live texts it had before:
/// the handle was live for the release, and nothing leaks.
pub proof fn lemma_release_reclaims(before: Slots, mid: Slots, after: Slots, h: int, text: Seq<u8>)
    requires
        allocated(before, mid, h, text),
        released(mid, after, h),
    ensures
        slot_live(mid, h),
        !slot_live(after, h),
        live_handles(after) == live_handles(before),
{
    assert(live_handles(after) =~= live_handles(before));
}

} // verus!
