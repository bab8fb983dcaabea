//! Identifiers of the subclasses installed on windows: each installation
//! takes the next one.
use vstd::prelude::*;

verus! {

/// The source of subclass identifiers (`uIdSubclass`): they are handed out
/// in increasing order from 0.
#[derive(Debug)]
pub struct SubclassIds {
    /// The identifier the next installation takes.
    pub next: usize,
}

impl SubclassIds {
    /// No identifier handed out yet.
    pub fn new() -> (ids: Self)
        ensures
            ids.next == 0,
    {
        SubclassIds { next: 0 }
    }

    /// Whether another identifier can be handed out.
    pub fn has_next(&self) -> (b: bool)
        ensures
            b == (self.next < usize::MAX),
    {
        self.next < usize::MAX
    }

    /// Hands out the next identifier.
    pub fn allocate(&mut self) -> (id: usize)
        requires
            old(self).next < usize::MAX,
        ensures
            id == old(self).next,
            final(self).next == old(self).next + 1,
    {
        let id = self.next;
        self.next = self.next + 1;
        id
    }
}

/// Once an identifier has been handed out, every later installation takes a
/// different one, however many installations came between: the counter
/// after the first allocation is past the identifier and never goes back.
pub proof fn lemma_later_ids_differ(first_id: usize, after_first: SubclassIds, later: SubclassIds)
    requires
        after_first.next == first_id + 1,
        later.next >= after_first.next,
    ensures
        later.next != first_id,
        later.next > first_id,
{
}

} // verus!
