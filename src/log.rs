use vstd::prelude::*;
use vstd::string::StringExecFns;

use crate::decimal::{decimal, push_decimal};
use crate::fields::{field_views, render, render_fields, Field};
use crate::relay::{LogRecord, RecordQueue};
use crate::severity::{interested, is_enabled, kind_of, message_kind, MessageKind, Severity};
use crate::span::SpanRegistry;

verus! {

/// Text reporting the fields `rendered` recorded on span `id`.
pub open spec fn record_text(id: u64, rendered: Seq<char>) -> Seq<char> {
    "span: "@ + decimal(id as nat) + ", record: "@ + rendered
}

/// Text reporting that span `id` follows from span `follows`.
pub open spec fn follows_text(id: u64, follows: u64) -> Seq<char> {
    "span: "@ + decimal(id as nat) + ", follows: "@ + decimal(follows as nat)
}

/// Text reporting that span `id` was entered.
pub open spec fn enter_text(id: u64) -> Seq<char> {
    "enter:"@ + decimal(id as nat)
}

/// Text reporting that span `id` was exited.
pub open spec fn exit_text(id: u64) -> Seq<char> {
    "exit:"@ + decimal(id as nat)
}

/// Consumer of trace activity that turns spans and events into log records
/// for the client, queued in the order they were emitted.
pub struct LspSubscriber {
    spans: SpanRegistry,
    queue: RecordQueue,
}

impl LspSubscriber {
    pub closed spec fn wf(&self) -> bool {
        self.spans.wf()
    }

    /// Span identifiers issued so far, in issue order.
    pub closed spec fn issued(&self) -> Seq<u64> {
        self.spans@
    }

    /// Records waiting for delivery, oldest first.
    pub closed spec fn pending(&self) -> Seq<(MessageKind, Seq<char>)> {
        self.queue@
    }

    /// A consumer that has issued no span and holds no record.
    pub fn new() -> (r: LspSubscriber)
        ensures
            r.wf(),
            r.issued() == Seq::<u64>::empty(),
            r.pending() == Seq::<(MessageKind, Seq<char>)>::empty(),
    {
        LspSubscriber { spans: SpanRegistry::new(), queue: RecordQueue::new() }
    }

    fn emit(&mut self, kind: MessageKind, text: String)
        ensures
            final(self).pending() == old(self).pending().push((kind, text@)),
            final(self).spans == old(self).spans,
    {
        self.queue.push(LogRecord { kind, text });
    }

    /// Whether activity of severity `s` is of interest.
    pub fn enabled(&self, s: Severity) -> (r: bool)
        ensures
            r == interested(s),
    {
        is_enabled(s)
    }

    /// How many span identifiers have been issued.
    pub fn span_count(&self) -> (r: u64)
        requires
            self.wf(),
        ensures
            r == self.issued().len(),
    {
        self.spans.issued_count()
    }

    /// Begins a span and returns its identifier, the next one in order.
    pub fn new_span(&mut self) -> (id: u64)
        requires
            old(self).wf(),
            old(self).issued().len() < u64::MAX,
        ensures
            final(self).wf(),
            id == old(self).issued().len() + 1,
            final(self).issued() == old(self).issued().push(id),
            final(self).pending() == old(self).pending(),
    {
        self.spans.allocate()
    }

    /// Reports the fields recorded on span `id`.
    pub fn record(&mut self, id: u64, fields: &Vec<Field>)
        requires
            old(self).wf(),
        ensures
            final(self).wf(),
            final(self).issued() == old(self).issued(),
            final(self).pending() == old(self).pending().push(
                (MessageKind::Log, record_text(id, render(field_views(fields@)))),
            ),
    {
        let mut text = String::new();
        text.append("span: ");
        push_decimal(&mut text, id);
        text.append(", record: ");
        let rendered = render_fields(fields);
        text.append(rendered.as_str());
        assert(text@ =~= record_text(id, render(field_views(fields@))));
        self.emit(MessageKind::Log, text);
    }

    /// Reports that span `id` follows from span `follows`. The relation is
    /// reported, not checked.
    pub fn record_follows_from(&mut self, id: u64, follows: u64)
        requires
            old(self).wf(),
        ensures
            final(self).wf(),
            final(self).issued() == old(self).issued(),
            final(self).pending() == old(self).pending().push(
                (MessageKind::Log, follows_text(id, follows)),
            ),
    {
        let mut text = String::new();
        text.append("span: ");
        push_decimal(&mut text, id);
        text.append(", follows: ");
        push_decimal(&mut text, follows);
        assert(text@ =~= follows_text(id, follows));
        self.emit(MessageKind::Log, text);
    }

    /// Reports an event of severity `s` with `fields`: its rendered fields,
    /// unwrapped, at the kind `s` maps to. A dropped severity leaves no
    /// record.
    pub fn event(&mut self, s: Severity, fields: &Vec<Field>)
        requires
            old(self).wf(),
        ensures
            final(self).wf(),
            final(self).issued() == old(self).issued(),
            kind_of(s) is None ==> final(self).pending() == old(self).pending(),
            kind_of(s) is Some ==> final(self).pending() == old(self).pending().push(
                (kind_of(s)->0, render(field_views(fields@))),
            ),
    {
        match message_kind(s) {
            None => {},
            Some(kind) => {
                let text = render_fields(fields);
                self.emit(kind, text);
            },
        }
    }

    /// Reports that span `id` was entered.
    pub fn enter(&mut self, id: u64)
        requires
            old(self).wf(),
        ensures
            final(self).wf(),
            final(self).issued() == old(self).issued(),
            final(self).pending() == old(self).pending().push((MessageKind::Log, enter_text(id))),
    {
        let mut text = String::new();
        text.append("enter:");
        push_decimal(&mut text, id);
        assert(text@ =~= enter_text(id));
        self.emit(MessageKind::Log, text);
    }

    /// Reports that span `id` was exited.
    pub fn exit(&mut self, id: u64)
        requires
            old(self).wf(),
        ensures
            final(self).wf(),
            final(self).issued() == old(self).issued(),
            final(self).pending() == old(self).pending().push((MessageKind::Log, exit_text(id))),
    {
        let mut text = String::new();
        text.append("exit:");
        push_decimal(&mut text, id);
        assert(text@ =~= exit_text(id));
        self.emit(MessageKind::Log, text);
    }

    /// Takes out the oldest record waiting for delivery, if any.
    pub fn next_record(&mut self) -> (r: Option<LogRecord>)
        requires
            old(self).wf(),
        ensures
            final(self).wf(),
            final(self).issued() == old(self).issued(),
            old(self).pending().len() == 0 ==> r is None && final(self).pending() == old(
                self,
            ).pending(),
            old(self).pending().len() > 0 ==> r is Some && r->0@ == old(self).pending()[0]
                && final(self).pending() == old(self).pending().drop_first(),
    {
        self.queue.pop()
    }
}

} // verus!
