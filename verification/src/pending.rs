//! The pending-file cell.
//!
//! A single-slot container, seeded once at startup with the scanner's
//! result, that yields its contents to the first taker and stays empty
//! for good afterwards.  The cell itself is sequential; the shell
//! serializes access to it, so that one `take` settles the slot for
//! every later caller.

use vstd::prelude::*;

verus! {

/// What `take` does to a slot: it yields the contents, and the slot is
/// empty from then on.
pub open spec fn take_spec(slot: Option<Seq<char>>) -> (Option<Seq<char>>, Option<Seq<char>>) {
    (slot, None)
}

/// A container for at most one startup file path.  It is filled at
/// most once, at construction, and emptied by the first `take`.
pub struct PendingFileCell {
    slot: Option<String>,
}

impl View for PendingFileCell {
    type V = Option<Seq<char>>;

    closed spec fn view(&self) -> Option<Seq<char>> {
        self.slot.deep_view()
    }
}

impl PendingFileCell {
    /// Seed the cell with the scanner's result, which may be absent.
    pub fn initialize(candidate: Option<String>) -> (cell: PendingFileCell)
        ensures
            cell@ == candidate.deep_view(),
    {
        PendingFileCell { slot: candidate }
    }

    /// Remove and return the contents.  The first call yields whatever
    /// the cell was seeded with; the cell is empty ever after.
    pub fn take(&mut self) -> (r: Option<String>)
        ensures
            (r.deep_view(), final(self)@) == take_spec(old(self)@),
    {
        self.slot.take()
    }
}

/// At-most-once delivery: whatever the cell was seeded with, the first
/// take yields exactly that, and a second take yields absence and
/// leaves the cell empty again — the seed is never delivered twice.
pub proof fn lemma_take_at_most_once(seed: Option<Seq<char>>)
    ensures
        take_spec(seed).0 == seed,
        take_spec(take_spec(seed).1).0 is None,
        take_spec(take_spec(seed).1).1 is None,
{
}

/// A cell seeded with absence yields absence to every taker.
pub proof fn lemma_empty_seed_yields_nothing(slot: Option<Seq<char>>)
    requires
        slot is None,
    ensures
        take_spec(slot).0 is None,
        take_spec(slot).1 is None,
{
}

} // verus!
