use vstd::prelude::*;
use vstd::string::StringExecFns;

verus! {

/// One named field of a span or an event, with its value already rendered as
/// debug text.
pub struct Field {
    pub name: String,
    pub value: String,
}

impl View for Field {
    type V = (Seq<char>, Seq<char>);

    open spec fn view(&self) -> (Seq<char>, Seq<char>) {
        (self.name@, self.value@)
    }
}

/// The reserved field name whose value is shown without a prefix.
pub open spec fn message_name() -> Seq<char> {
    "message"@
}

/// The text one field contributes to a message: the value alone for the
/// `message` field, `name=value` for any other.
pub open spec fn segment(f: (Seq<char>, Seq<char>)) -> Seq<char> {
    if f.0 == message_name() {
        f.1
    } else {
        f.0 + "="@ + f.1
    }
}

/// The segments of `fs`, in order, joined with commas.
pub open spec fn render(fs: Seq<(Seq<char>, Seq<char>)>) -> Seq<char>
    decreases fs.len(),
{
    if fs.len() == 0 {
        Seq::empty()
    } else if fs.len() == 1 {
        segment(fs[0])
    } else {
        render(fs.drop_last()) + ","@ + segment(fs.last())
    }
}

/// The views of a list of fields.
pub open spec fn field_views(fs: Seq<Field>) -> Seq<(Seq<char>, Seq<char>)> {
    fs.map_values(|f: Field| f@)
}

/// Rendering keeps the order of the fields: the message of two runs of fields
/// one after the other is the message of the first run, a comma, and the
/// message of the second. No field is moved, merged or dropped.
pub proof fn lemma_render_concat(a: Seq<(Seq<char>, Seq<char>)>, b: Seq<(Seq<char>, Seq<char>)>)
    requires
        a.len() > 0,
        b.len() > 0,
    ensures
        render(a + b) == render(a) + ","@ + render(b),
    decreases b.len(),
{
    let ab = a + b;
    if b.len() == 1 {
        assert(ab.drop_last() =~= a);
        assert(ab.last() == b[0]);
    } else {
        lemma_render_concat(a, b.drop_last());
        assert(ab.drop_last() =~= a + b.drop_last());
        assert(ab.last() == b.last());
        assert(render(ab) =~= render(a) + ","@ + render(b));
    }
}

/// Accumulates fields, as they arrive, into one message.
pub struct FieldRenderer {
    message: String,
    started: bool,
    fields: Ghost<Seq<(Seq<char>, Seq<char>)>>,
}

impl View for FieldRenderer {
    type V = Seq<(Seq<char>, Seq<char>)>;

    /// The fields recorded so far, in arrival order.
    closed spec fn view(&self) -> Seq<(Seq<char>, Seq<char>)> {
        self.fields@
    }
}

impl FieldRenderer {
    pub closed spec fn wf(&self) -> bool {
        &&& self.started == (self.fields@.len() > 0)
        &&& self.message@ == render(self.fields@)
    }

    /// A renderer that has seen no field.
    pub fn new() -> (r: FieldRenderer)
        ensures
            r.wf(),
            r@ == Seq::<(Seq<char>, Seq<char>)>::empty(),
    {
        FieldRenderer { message: String::new(), started: false, fields: Ghost(Seq::empty()) }
    }

    /// Adds the field `name` with rendered value `value` after those already
    /// recorded.
    pub fn record_field(&mut self, name: &str, value: &str)
        requires
            old(self).wf(),
        ensures
            final(self).wf(),
            final(self)@ == old(self)@.push((name@, value@)),
    {
        if self.started {
            self.message.append(",");
        }
        if is_message_name(name) {
            self.message.append(value);
        } else {
            self.message.append(name);
            self.message.append("=");
            self.message.append(value);
        }
        self.started = true;
        let ghost f = (name@, value@);
        self.fields = Ghost(self.fields@.push(f));
        proof {
            let fs = self.fields@;
            assert(fs.drop_last() =~= old(self).fields@);
            assert(self.message@ =~= render(fs));
        }
    }

    /// The message built from the fields recorded so far.
    pub fn as_str(&self) -> (r: &str)
        requires
            self.wf(),
        ensures
            r@ == render(self@),
    {
        self.message.as_str()
    }

    /// Ends rendering and hands out the message.
    pub fn into_message(self) -> (r: String)
        requires
            self.wf(),
        ensures
            r@ == render(self@),
    {
        self.message
    }
}

fn is_message_name(name: &str) -> (r: bool)
    ensures
        r == (name@ == message_name()),
{
    let given = name.to_owned();
    let reserved = "message".to_owned();
    given == reserved
}

/// Renders `fields` in the order given.
pub fn render_fields(fields: &Vec<Field>) -> (r: String)
    ensures
        r@ == render(field_views(fields@)),
{
    let mut renderer = FieldRenderer::new();
    let mut i: usize = 0;
    while i < fields.len()
        invariant
            i <= fields@.len(),
            renderer.wf(),
            renderer@ == field_views(fields@).take(i as int),
        decreases fields@.len() - i,
    {
        renderer.record_field(fields[i].name.as_str(), fields[i].value.as_str());
        assert(field_views(fields@).take(i + 1) =~= field_views(fields@).take(i as int).push(
            fields@[i as int]@,
        ));
        i = i + 1;
    }
    assert(field_views(fields@).take(i as int) =~= field_views(fields@));
    renderer.into_message()
}

} // verus!
