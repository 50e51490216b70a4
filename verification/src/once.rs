//! The write-once slot.
//!
//! Each piece of process-wide state of this crate lives in one slot: the
//! registered table, the feature words, the platform identity. Whoever owns
//! the state makes the slot at startup and hands it to the functions that
//! need it. A slot is written through an exclusive reference only, so no
//! reader can see it half-written, and what it holds once it is full is what
//! it holds for good.

use vstd::prelude::*;

verus! {

/// A slot that is empty when made, takes a value once, and keeps it.
///
/// The view is `None` while the slot is empty and `Some(v)` from the moment
/// `v` is stored. No method clears a slot or replaces a stored value, so a
/// reader that has seen `Some(v)` sees the same `v` for as long as the slot
/// lives.
pub struct WriteOnce<T> {
    slot: Option<T>,
}

impl<T> View for WriteOnce<T> {
    type V = Option<T>;

    closed spec fn view(&self) -> Option<T> {
        self.slot
    }
}

impl<T> WriteOnce<T> {
    /// What `set` leaves in a slot that views as `before`.
    pub open spec fn after_set(before: Option<T>, value: T) -> Option<T> {
        match before {
            Some(kept) => Some(kept),
            None => Some(value),
        }
    }

    /// An empty slot.
    pub fn new() -> (cell: Self)
        ensures
            cell@ is None,
    {
        WriteOnce { slot: None }
    }

    /// Whether a value has been stored.
    pub fn is_set(&self) -> (set: bool)
        ensures
            set == (self@ is Some),
    {
        self.slot.is_some()
    }

    /// Stores `value` if the slot is empty. A full slot is left as it is and
    /// the rejected value is handed back.
    pub fn set(&mut self, value: T) -> (outcome: Result<(), T>)
        ensures
            final(self)@ == Self::after_set(old(self)@, value),
            outcome == (match old(self)@ {
                Some(_) => Err::<(), T>(value),
                None => Ok::<(), T>(()),
            }),
        no_unwind
    {
        match self.slot {
            Some(_) => Err(value),
            None => {
                self.slot = Some(value);
                Ok(())
            },
        }
    }

    /// The stored value; an empty slot is first filled with what `init`
    /// returns. `init` is called only on an empty slot.
    pub fn get_or_init<F: FnOnce() -> T>(&mut self, init: F) -> (value: T) where T: Copy
        requires
            init.requires(()),
        ensures
            filled_from(old(self)@, final(self)@),
            final(self)@ == Some(value),
            old(self)@ is None ==> init.ensures((), value),
    {
        match self.slot {
            Some(kept) => kept,
            None => {
                let fresh = init();
                self.slot = Some(fresh);
                fresh
            },
        }
    }

    /// The stored value, if there is one.
    pub fn get(&self) -> (value: Option<&T>)
        ensures
            match value {
                Some(v) => self@ == Some(*v),
                None => self@ is None,
            },
    {
        self.slot.as_ref()
    }
}

/// What a lazy read does to a slot: it fills an empty slot and leaves a full
/// one alone.
pub open spec fn filled_from<T>(before: Option<T>, after: Option<T>) -> bool {
    after is Some && (before is Some ==> after == before)
}

/// Whether `states` is what a slot goes through under lazy reads in a row:
/// each state but the first is what a lazy read makes of the state before it.
pub open spec fn lazy_reads<T>(states: Seq<Option<T>>) -> bool {
    forall|k: int|
        #![trigger states[k]]
        0 <= k && k + 1 < states.len() ==> filled_from(states[k], states[k + 1])
}

/// Lazy reads agree: however many are made in a row, and whatever the slot
/// held at first, every read leaves the slot full and as the first read left
/// it.
pub proof fn lemma_lazy_reads_agree<T>(states: Seq<Option<T>>, i: int, j: int)
    requires
        lazy_reads(states),
        1 <= i < states.len(),
        1 <= j < states.len(),
    ensures
        states[i] is Some,
        states[i] == states[j],
{
    lemma_lazy_reads_settle(states, i);
    lemma_lazy_reads_settle(states, j);
}

/// Under lazy reads the slot stays as the first read left it.
proof fn lemma_lazy_reads_settle<T>(states: Seq<Option<T>>, i: int)
    requires
        lazy_reads(states),
        1 <= i < states.len(),
    ensures
        states[i] is Some,
        states[i] == states[1],
    decreases i,
{
    assert(filled_from(states[i - 1], states[i]));
    if i > 1 {
        lemma_lazy_reads_settle(states, i - 1);
    }
}

/// A second `set` is always rejected, and it changes nothing: whatever the
/// slot held before the first `set`, after it the slot is full, and a further
/// `set` leaves the view as the first one left it.
pub proof fn lemma_set_twice<T>(before: Option<T>, first: T, second: T)
    ensures
        WriteOnce::<T>::after_set(before, first) is Some,
        WriteOnce::<T>::after_set(WriteOnce::<T>::after_set(before, first), second)
            == WriteOnce::<T>::after_set(before, first),
{
}

} // verus!
