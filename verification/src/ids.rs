//! Identifier allocation.
//!
//! Every `Layout` and every widget receives its identity from an [`IdGen`].
//! A generator hands out identifiers that are unique, strictly increasing in
//! allocation order, and never reused.  Callers create one generator per
//! tree-building session and thread it through the constructors, so tests can
//! start allocation from a known point and independent trees do not interfere.

use vstd::prelude::*;

verus! {

/// Allocator for node identifiers.
///
/// Identifiers start at zero and go up by one on each allocation.  The ghost
/// field `issued` records every identifier handed out, oldest first, so that
/// the allocation-order laws can be stated about a generator's whole history.
pub struct IdGen {
    next: usize,
    issued: Ghost<Seq<usize>>,
}

impl IdGen {
    /// All identifiers this generator has handed out, oldest first.
    pub closed spec fn issued(&self) -> Seq<usize> {
        self.issued@
    }

    /// The identifier the next allocation will return.
    pub closed spec fn next_id(&self) -> usize {
        self.next
    }

    /// Every identifier handed out so far lies below `next_id`, and the
    /// history is strictly increasing.
    pub closed spec fn wf(&self) -> bool {
        &&& forall|i: int| 0 <= i < self.issued@.len() ==> self.issued@[i] < self.next
        &&& forall|i: int, j: int|
            0 <= i < j < self.issued@.len() ==> self.issued@[i] < self.issued@[j]
    }

    /// A fresh generator: nothing issued yet, first identifier will be zero.
    pub fn new() -> (g: IdGen)
        ensures
            g.wf(),
            g.issued() == Seq::<usize>::empty(),
            g.next_id() == 0,
    {
        IdGen { next: 0, issued: Ghost(Seq::empty()) }
    }

    /// Allocate one identifier.
    pub fn fresh(&mut self) -> (id: usize)
        requires
            old(self).wf(),
            old(self).next_id() < usize::MAX,
        ensures
            final(self).wf(),
            id == old(self).next_id(),
            final(self).next_id() == old(self).next_id() + 1,
            final(self).issued() == old(self).issued().push(id),
    {
        let id = self.next;
        self.next = self.next + 1;
        proof {
            self.issued@ = self.issued@.push(id);
        }
        id
    }
}

/// Law: identifiers allocated by one generator are strictly increasing in
/// allocation order, and hence pairwise distinct.
pub proof fn lemma_issued_strictly_increasing(g: &IdGen, i: int, j: int)
    requires
        g.wf(),
        0 <= i < j < g.issued().len(),
    ensures
        g.issued()[i] < g.issued()[j],
        g.issued()[i] != g.issued()[j],
{
}

} // verus!
