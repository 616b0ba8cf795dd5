use std::collections::VecDeque;
use vstd::prelude::*;

use crate::severity::MessageKind;

verus! {

/// One message for the client: its kind and its text.
pub struct LogRecord {
    pub kind: MessageKind,
    pub text: String,
}

impl View for LogRecord {
    type V = (MessageKind, Seq<char>);

    open spec fn view(&self) -> (MessageKind, Seq<char>) {
        (self.kind, self.text@)
    }
}

/// The order in which records leave a queue that holds `q` and is drained one
/// record at a time from the front.
pub open spec fn drained(q: Seq<(MessageKind, Seq<char>)>) -> Seq<(MessageKind, Seq<char>)>
    decreases q.len(),
{
    if q.len() == 0 {
        Seq::empty()
    } else {
        seq![q[0]] + drained(q.drop_first())
    }
}

/// Unbounded first-in-first-out buffer of records waiting for delivery.
pub struct RecordQueue {
    items: VecDeque<LogRecord>,
}

impl View for RecordQueue {
    type V = Seq<(MessageKind, Seq<char>)>;

    /// The records waiting, oldest first.
    closed spec fn view(&self) -> Seq<(MessageKind, Seq<char>)> {
        self.items@.map_values(|r: LogRecord| r@)
    }
}

impl RecordQueue {
    /// An empty queue.
    pub fn new() -> (r: RecordQueue)
        ensures
            r@ == Seq::<(MessageKind, Seq<char>)>::empty(),
    {
        let r = RecordQueue { items: VecDeque::new() };
        assert(r@ =~= Seq::<(MessageKind, Seq<char>)>::empty());
        r
    }

    /// Number of records waiting.
    pub fn len(&self) -> (r: usize)
        ensures
            r == self@.len(),
    {
        self.items.len()
    }

    /// Whether no record is waiting.
    pub fn is_empty(&self) -> (r: bool)
        ensures
            r == (self@.len() == 0),
    {
        self.items.len() == 0
    }

    /// Puts `record` behind every record already waiting.
    pub fn push(&mut self, record: LogRecord)
        ensures
            final(self)@ == old(self)@.push(record@),
    {
        self.items.push_back(record);
        assert(final(self)@ =~= old(self)@.push(record@));
    }

    /// Takes out the oldest waiting record, if any.
    pub fn pop(&mut self) -> (r: Option<LogRecord>)
        ensures
            old(self)@.len() == 0 ==> r is None && final(self)@ == old(self)@,
            old(self)@.len() > 0 ==> r is Some && r->0@ == old(self)@[0] && final(self)@
                == old(self)@.drop_first(),
    {
        let r = self.items.pop_front();
        assert(final(self)@ =~= if old(self)@.len() == 0 {
            old(self)@
        } else {
            old(self)@.drop_first()
        });
        r
    }
}

/// Records are delivered in the order they were submitted: draining a queue
/// that held `pending` and then received `submitted` hands out every pending
/// record first, then the submitted ones, each group in its own order.
pub proof fn lemma_delivery_in_submission_order(
    pending: Seq<(MessageKind, Seq<char>)>,
    submitted: Seq<(MessageKind, Seq<char>)>,
)
    ensures
        drained(pending + submitted) == pending + submitted,
        drained(pending + submitted).subrange(pending.len() as int, (pending.len() + submitted.len()) as int) == submitted,
{
    lemma_drained_keeps_order(pending + submitted);
    assert((pending + submitted).subrange(pending.len() as int, (pending.len() + submitted.len()) as int) =~= submitted);
}

proof fn lemma_drained_keeps_order(q: Seq<(MessageKind, Seq<char>)>)
    ensures
        drained(q) == q,
    decreases q.len(),
{
    if q.len() > 0 {
        lemma_drained_keeps_order(q.drop_first());
        assert(seq![q[0]] + q.drop_first() =~= q);
    }
}

} // verus!
