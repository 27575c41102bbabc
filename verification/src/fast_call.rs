//! The decisions behind the process-wide slot that remembers where the
//! kernel's in-process clock-read entry point lies.
//!
//! The slot is one word. The caller owns it, loads and stores it atomically,
//! and asks the kernel-provided mapping for the entry point; what to do
//! with each word is decided here.

use vstd::prelude::*;

verus! {

/// The word of a slot that nobody has resolved yet.
pub const UNRESOLVED: usize = 0;

/// The word of a slot that was resolved and found no entry point.
pub const ABSENT: usize = 1;

/// What a slot's word means.
#[derive(Clone, Copy, Debug, PartialEq, Eq, Structural)]
pub enum Slot {
    /// Nobody has looked for the entry point yet.
    Unresolved,
    /// The entry point was looked for and there is none.
    Absent,
    /// The entry point lies at this address.
    Present(usize),
}

/// What a reader of the slot does next.
#[derive(Clone, Copy, Debug, PartialEq, Eq, Structural)]
pub enum Step {
    /// Look the entry point up and hand the answer to [`on_lookup`].
    Resolve,
    /// Go on with this entry point, or without one.
    Use(Option<usize>),
}

/// What a resolver does with the answer of a lookup.
#[derive(Clone, Copy, Debug, PartialEq, Eq, Structural)]
pub struct Resolution {
    /// The word to store in the slot.
    pub store: usize,
    /// The entry point to go on with, if there is one.
    pub entry: Option<usize>,
}

impl Slot {
    /// The meaning of a word.
    pub open spec fn decode(word: usize) -> Slot {
        if word == UNRESOLVED {
            Slot::Unresolved
        } else if word == ABSENT {
            Slot::Absent
        } else {
            Slot::Present(word)
        }
    }

    /// Whether the lookup has been made.
    pub open spec fn resolved(self) -> bool {
        !(self is Unresolved)
    }

    /// The entry point that a resolved slot offers.
    pub open spec fn entry(self) -> Option<usize> {
        match self {
            Slot::Present(address) => Some(address),
            _ => None,
        }
    }

    /// The meaning of a loaded word.
    pub fn from_word(word: usize) -> (slot: Slot)
        ensures
            slot == Slot::decode(word),
    {
        if word == UNRESOLVED {
            Slot::Unresolved
        } else if word == ABSENT {
            Slot::Absent
        } else {
            Slot::Present(word)
        }
    }
}

/// The step that follows a load of `word`.
pub open spec fn step_after_load(word: usize) -> Step {
    match Slot::decode(word) {
        Slot::Unresolved => Step::Resolve,
        slot => Step::Use(slot.entry()),
    }
}

/// The resolution that follows a lookup which answered `found`, the null
/// address standing for "no entry point".
pub open spec fn resolution_of(found: usize) -> Resolution {
    if found == 0 {
        Resolution { store: ABSENT, entry: None }
    } else {
        Resolution { store: found, entry: Some(found) }
    }
}

/// Decides what follows a load of the slot: a lookup while it is unresolved,
/// and otherwise the answer that it holds.
pub fn on_load(word: usize) -> (step: Step)
    ensures
        step == step_after_load(word),
{
    match Slot::from_word(word) {
        Slot::Unresolved => Step::Resolve,
        Slot::Absent => Step::Use(None),
        Slot::Present(address) => Step::Use(Some(address)),
    }
}

/// Decides what follows a lookup: the word to store, and the entry point to
/// go on with.
pub fn on_lookup(found: usize) -> (r: Resolution)
    ensures
        r == resolution_of(found),
{
    if found == 0 {
        Resolution { store: ABSENT, entry: None }
    } else {
        Resolution { store: found, entry: Some(found) }
    }
}

/// A resolved slot stays resolved: no lookup stores the word of an
/// unresolved slot, so no later load asks for a lookup again.
pub proof fn lemma_resolution_is_final(found: usize)
    ensures
        Slot::decode(resolution_of(found).store).resolved(),
        step_after_load(resolution_of(found).store) != Step::Resolve,
{
}

/// Every load after a resolution goes on as the resolver did, unless the
/// lookup answered with the address that stands for "absent".
pub proof fn lemma_later_loads_agree(found: usize)
    requires
        found != ABSENT,
    ensures
        step_after_load(resolution_of(found).store) == Step::Use(resolution_of(found).entry),
{
}

/// Resolving is idempotent: a slot that holds a present entry point hands
/// out an address that a lookup would store as the same word.
pub proof fn lemma_resolution_idempotent(word: usize)
    requires
        Slot::decode(word) is Present,
    ensures
        resolution_of(word).store == word,
        resolution_of(word).entry == Slot::decode(word).entry(),
{
}

} // verus!
