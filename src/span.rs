use vstd::prelude::*;

verus! {

/// Hands out span identifiers: 1, 2, 3, ... one per span, never reused.
pub struct SpanRegistry {
    count: u64,
    issued: Ghost<Seq<u64>>,
}

impl View for SpanRegistry {
    type V = Seq<u64>;

    /// The identifiers issued so far, in the order they were issued.
    closed spec fn view(&self) -> Seq<u64> {
        self.issued@
    }
}

impl SpanRegistry {
    pub closed spec fn wf(&self) -> bool {
        &&& self.count as nat == self.issued@.len()
        &&& forall|i: int| 0 <= i < self.issued@.len() ==> #[trigger] self.issued@[i] == i + 1
    }

    /// The number of identifiers issued so far.
    pub open spec fn issued_len(&self) -> nat {
        self@.len()
    }

    /// A registry that has issued nothing.
    pub fn new() -> (r: SpanRegistry)
        ensures
            r.wf(),
            r@ == Seq::<u64>::empty(),
    {
        SpanRegistry { count: 0, issued: Ghost(Seq::empty()) }
    }

    /// How many identifiers have been issued.
    pub fn issued_count(&self) -> (r: u64)
        requires
            self.wf(),
        ensures
            r == self.issued_len(),
    {
        self.count
    }

    /// Issues the next identifier: one more than the number issued before.
    pub fn allocate(&mut self) -> (id: u64)
        requires
            old(self).wf(),
            old(self).issued_len() < u64::MAX,
        ensures
            final(self).wf(),
            id == old(self).issued_len() + 1,
            final(self)@ == old(self)@.push(id),
    {
        self.count = self.count + 1;
        let id = self.count;
        self.issued = Ghost(self.issued@.push(id));
        id
    }
}

/// In every state of a registry the identifiers issued are nonzero and
/// strictly increasing in the order they were issued, so none repeats.
pub proof fn lemma_issued_strictly_increasing(r: SpanRegistry)
    requires
        r.wf(),
    ensures
        forall|i: int| 0 <= i < r@.len() ==> #[trigger] r@[i] >= 1,
        forall|i: int, j: int| 0 <= i < j < r@.len() ==> #[trigger] r@[i] < #[trigger] r@[j],
{
}

/// A newly issued identifier is larger than, and so differs from, every one
/// issued before it.
pub proof fn lemma_fresh_exceeds_issued(r: SpanRegistry, id: u64)
    requires
        r.wf(),
        id == r.issued_len() + 1,
    ensures
        forall|i: int| 0 <= i < r@.len() ==> #[trigger] r@[i] < id,
        !r@.contains(id),
{
}

} // verus!
