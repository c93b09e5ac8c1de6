//! The fields of an event or of a span, rendered as `name: value` pairs
//! with a comma and a space between each two.
//!
//! Three names are special. The field `message` is shown by its value
//! alone. A field whose name begins with `log.` is not shown. A name that
//! begins with `r#` is shown without these two characters.
use vstd::prelude::*;
use vstd::string::StrSliceExecFns;
use vstd::string::StringExecFns;
use crate::event::{ErrorValue, ErrorValueView, Field, FieldView, Value, ValueView};
use crate::sink::{FormatError, Sink, SinkView};
use crate::style::Style;
use crate::text::{join, lemma_join_step, same_text, starts_with, str_starts_with};

verus! {

/// The debug rendering of a text: the text in quotes, with the characters
/// escaped that the standard library escapes.
pub uninterp spec fn debug_quoted(value: Seq<char>) -> Seq<char>;

/// Renders a text as `{:?}` does, through the standard library's
/// `<str as core::fmt::Debug>::fmt`.
///
/// Believed without proof: the result depends on the text alone. It is
/// given the name [`debug_quoted`]; nothing more is claimed of it.
#[verifier::external_body]
fn debug_quote(value: &str) -> (r: String)
    ensures
        r@ == debug_quoted(value@),
{
    format!("{:?}", value)
}

/// A field of this name is shown by its value alone.
pub open spec fn is_message(name: Seq<char>) -> bool {
    name == "message"@
}

/// A field of this name is not shown.
pub open spec fn is_hidden(name: Seq<char>) -> bool {
    !is_message(name) && starts_with(name, "log."@)
}

/// The name as it is shown: without a leading `r#`.
pub open spec fn shown_name(name: Seq<char>) -> Seq<char> {
    if starts_with(name, "r#"@) {
        name.skip(2)
    } else {
        name
    }
}

/// One field that is shown, where `ansi` says whether text is styled.
///
/// The message is its value alone. Any other field is its shown name and a
/// colon, then a space and the value. Where text is styled, the message,
/// or the name with its colon, stands between the escape sequences that
/// switch bold on and off; where it is not, nothing is added.
pub open spec fn field_text(ansi: bool, name: Seq<char>, value: Seq<char>) -> Seq<char> {
    let bold = Style::bold_if(ansi);
    let plain = Style::bold_if(false);
    if is_message(name) {
        bold.prefix_text() + value + bold.infix_text(plain)
    } else {
        bold.prefix_text() + shown_name(name) + ":"@ + bold.infix_text(plain) + " "@ + value
    }
}

/// The causes of an error as a list: in square brackets, with a comma and
/// a space between each two.
pub open spec fn source_list_text(sources: Seq<Seq<char>>) -> Seq<char> {
    "["@ + join(sources, ", "@) + "]"@
}

/// The value of an error field named `name`: what the error says, and,
/// where it has causes, a comma and the list of them under the name
/// `<name>.sources`.
pub open spec fn error_text(name: Seq<char>, error: ErrorValueView) -> Seq<char> {
    if error.sources.len() > 0 {
        error.message + ", "@ + name + ".sources: "@ + source_list_text(error.sources)
    } else {
        error.message
    }
}

/// What stands before a field: nothing before the first that is shown, a
/// comma and a space before every other.
pub open spec fn padding_text(is_empty: bool) -> Seq<char> {
    if is_empty {
        Seq::<char>::empty()
    } else {
        ", "@
    }
}

/// A visitor in a contract.
pub struct VisitorView {
    /// The sink that the visitor writes to.
    pub writer: SinkView,
    /// No field was shown yet.
    pub is_empty: bool,
    /// `Err` once a write has failed.
    pub result: Result<(), FormatError>,
}

impl VisitorView {
    /// The visitor that has seen no field yet.
    pub open spec fn start(writer: SinkView) -> VisitorView {
        VisitorView { writer, is_empty: true, result: Ok(()) }
    }

    /// The visitor after it wrote `chunk` with its padding.
    pub open spec fn write_padded(self, chunk: Seq<char>) -> VisitorView {
        VisitorView {
            writer: self.writer.write(padding_text(self.is_empty) + chunk),
            is_empty: false,
            result: self.writer.outcome(),
        }
    }

    /// The visitor after a field whose value is already rendered.
    ///
    /// After a failed write nothing more is written. A hidden field leaves
    /// the visitor as it is.
    pub open spec fn record_debug(self, name: Seq<char>, value: Seq<char>) -> VisitorView {
        if self.result is Err || is_hidden(name) {
            self
        } else {
            self.write_padded(field_text(self.writer.ansi, name, value))
        }
    }

    /// The visitor after a text field: the message is shown bare, any
    /// other text in its debug rendering.
    pub open spec fn record_str(self, name: Seq<char>, value: Seq<char>) -> VisitorView {
        self.record_debug(
            name,
            if is_message(name) {
                value
            } else {
                debug_quoted(value)
            },
        )
    }

    /// The visitor after an error field.
    pub open spec fn record_error(self, name: Seq<char>, error: ErrorValueView) -> VisitorView {
        self.record_debug(name, error_text(name, error))
    }

    /// The visitor after one field, whatever its kind.
    pub open spec fn record(self, field: FieldView) -> VisitorView {
        match field.value {
            ValueView::Str(s) => self.record_str(field.name, s),
            ValueView::Debug(s) => self.record_debug(field.name, s),
            ValueView::Error(e) => self.record_error(field.name, e),
        }
    }

    /// The visitor after the given fields, in their order.
    pub open spec fn record_all(self, fields: Seq<FieldView>) -> VisitorView
        decreases fields.len(),
    {
        if fields.len() == 0 {
            self
        } else {
            self.record_all(fields.drop_last()).record(fields.last())
        }
    }

    /// What finishing returns: the failure of the closing write, else the
    /// first failure before it, else success.
    pub open spec fn finish(self) -> Result<(), FormatError> {
        if self.writer.closed {
            Err(FormatError::SinkWrite)
        } else {
            self.result
        }
    }
}

/// The value of a field as it is shown.
pub open spec fn value_text(field: FieldView) -> Seq<char> {
    match field.value {
        ValueView::Str(s) => if is_message(field.name) {
            s
        } else {
            debug_quoted(s)
        },
        ValueView::Debug(s) => s,
        ValueView::Error(e) => error_text(field.name, e),
    }
}

/// The fields that are shown, in their order.
pub open spec fn shown_fields(fields: Seq<FieldView>) -> Seq<FieldView> {
    fields.filter(|f: FieldView| !is_hidden(f.name))
}

/// The fields as one text: each field that is shown, in the order given,
/// with a comma and a space between each two.
pub open spec fn tail_text(ansi: bool, fields: Seq<FieldView>) -> Seq<char> {
    join(
        shown_fields(fields).map_values(|f: FieldView| field_text(ansi, f.name, value_text(f))),
        ", "@,
    )
}

/// A visitor that starts on an open sink and takes the given fields one by
/// one has written their text, and no write has failed.
pub proof fn lemma_record_all_open(writer: SinkView, fields: Seq<FieldView>)
    requires
        !writer.closed,
    ensures
        VisitorView::start(writer).record_all(fields) == (VisitorView {
            writer: writer.write(tail_text(writer.ansi, fields)),
            is_empty: shown_fields(fields).len() == 0,
            result: Ok(()),
        }),
    decreases fields.len(),
{
    reveal(Seq::filter);
    let pred = |f: FieldView| !is_hidden(f.name);
    let show = |f: FieldView| field_text(writer.ansi, f.name, value_text(f));
    if fields.len() == 0 {
        assert(writer.text + tail_text(writer.ansi, fields) =~= writer.text);
    } else {
        let before = fields.drop_last();
        let last = fields.last();
        lemma_record_all_open(writer, before);
        let mid = VisitorView::start(writer).record_all(before);
        let end = mid.record(last);
        assert(end == mid.record_debug(last.name, value_text(last)));
        if is_hidden(last.name) {
            assert(shown_fields(fields) == shown_fields(before));
        } else {
            let kept = shown_fields(before);
            assert(shown_fields(fields) == kept.push(last));
            assert(kept.push(last).map_values(show) =~= kept.map_values(show).push(show(last)));
            assert(kept.map_values(show).push(show(last)).drop_last() =~= kept.map_values(show));
            assert(end.writer.text =~= writer.text + tail_text(writer.ansi, fields));
        }
    }
}

/// A visitor on a closed sink leaves the sink as it is, whatever fields it
/// takes.
pub proof fn lemma_record_all_closed(writer: SinkView, fields: Seq<FieldView>)
    requires
        writer.closed,
    ensures
        VisitorView::start(writer).record_all(fields).writer == writer,
    decreases fields.len(),
{
    if fields.len() > 0 {
        lemma_record_all_closed(writer, fields.drop_last());
    }
}

/// A field whose name begins with `log.` shows nowhere in the text,
/// whatever its value and wherever it stands among the fields.
pub proof fn lemma_hidden_field_is_not_shown(
    ansi: bool,
    before: Seq<FieldView>,
    field: FieldView,
    after: Seq<FieldView>,
)
    requires
        is_hidden(field.name),
    ensures
        tail_text(ansi, before + seq![field] + after) == tail_text(ansi, before + after),
{
    reveal(Seq::filter);
    let pred = |f: FieldView| !is_hidden(f.name);
    Seq::filter_distributes_over_add(before + seq![field], after, pred);
    Seq::filter_distributes_over_add(before, seq![field], pred);
    Seq::filter_distributes_over_add(before, after, pred);
    assert(seq![field].drop_last() =~= Seq::<FieldView>::empty());
    assert(Seq::<FieldView>::empty().filter(pred) =~= Seq::<FieldView>::empty());
    assert(seq![field].last() == field);
    assert(seq![field].filter(pred) =~= Seq::<FieldView>::empty());
    assert(before.filter(pred) + Seq::<FieldView>::empty() =~= before.filter(pred));
}

/// A message that is the only field is shown by its value alone, with no
/// name and no comma, where text is not styled.
pub proof fn lemma_message_alone_is_bare(field: FieldView)
    requires
        is_message(field.name),
    ensures
        tail_text(false, seq![field]) == value_text(field),
{
    reveal(Seq::filter);
    let pred = |f: FieldView| !is_hidden(f.name);
    let show = |f: FieldView| field_text(false, f.name, value_text(f));
    assert(seq![field].drop_last() =~= Seq::<FieldView>::empty());
    assert(Seq::<FieldView>::empty().filter(pred) =~= Seq::<FieldView>::empty());
    assert(seq![field].last() == field);
    assert(seq![field].filter(pred) =~= seq![field]);
    assert(seq![field].map_values(show) =~= seq![show(field)]);
    assert(show(field) =~= value_text(field));
}

/// A name that begins with `r#` is shown without these two characters:
/// where text is not styled, the field is the rest of the name, a colon, a
/// space and the value.
pub proof fn lemma_raw_name_is_unescaped(rest: Seq<char>, value: Seq<char>)
    ensures
        !is_message("r#"@ + rest),
        !is_hidden("r#"@ + rest),
        field_text(false, "r#"@ + rest, value) == rest + ": "@ + value,
{
    reveal_strlit("r#");
    reveal_strlit("message");
    reveal_strlit("log.");
    reveal_strlit(":");
    reveal_strlit(" ");
    reveal_strlit(": ");
    let name = "r#"@ + rest;
    assert(name[0] == 'r');
    assert("message"@[0] == 'm');
    assert(name.subrange(0, 2) =~= "r#"@);
    assert(name.skip(2) =~= rest);
    if starts_with(name, "log."@) {
        assert(name.subrange(0, 4)[0] == 'l');
    }
    assert(field_text(false, name, value) =~= rest + ": "@ + value);
}

/// The formatter of fields: it makes the visitors.
#[derive(Default)]
pub struct GlogFields;

/// Takes the fields of one event or span, one call for each, and writes
/// them to a sink.
///
/// The visitor borrows its sink. The last clause of each method's contract
/// says that the visitor goes on writing to the same sink, so that what
/// the visitor has written is what the sink's owner finds when the visitor
/// is gone.
pub struct GlogVisitor<'a> {
    /// The sink that the fields are written to.
    pub writer: &'a mut Sink,
    /// No field was shown yet.
    pub is_empty: bool,
    /// `Err` once a write has failed.
    pub result: Result<(), FormatError>,
}

impl<'a> View for GlogVisitor<'a> {
    type V = VisitorView;

    open spec fn view(&self) -> VisitorView {
        VisitorView { writer: (*self.writer)@, is_empty: self.is_empty, result: self.result }
    }
}

/// Renders the causes of an error as a list.
pub fn source_list(sources: &Vec<String>) -> (r: String)
    ensures
        r@ == source_list_text(sources.deep_view()),
{
    let ghost parts = sources.deep_view();
    let mut out = String::from_str("[");
    let mut i: usize = 0;
    while i < sources.len()
        invariant
            i <= sources.len(),
            parts == sources.deep_view(),
            out@ == "["@ + join(parts.take(i as int), ", "@),
        decreases sources.len() - i,
    {
        if i > 0 {
            out.append(", ");
        }
        out.append(sources[i].as_str());
        proof {
            lemma_join_step(parts, ", "@, i as int);
            assert(parts[i as int] == sources[i as int]@);
            assert(out@ =~= "["@ + join(parts.take(i + 1), ", "@));
        }
        i += 1;
    }
    assert(parts.take(sources.len() as int) =~= parts);
    out.append("]");
    out
}

/// Renders the value of an error field named `name`.
pub fn error_value(name: &str, error: &ErrorValue) -> (r: String)
    ensures
        r@ == error_text(name@, error.deep_view()),
{
    let mut out = String::from_str(error.message.as_str());
    if error.sources.len() > 0 {
        out.append(", ");
        out.append(name);
        out.append(".sources: ");
        let list = source_list(&error.sources);
        out.append(list.as_str());
        assert(out@ =~= error_text(name@, error.deep_view()));
    }
    out
}

impl GlogFields {
    /// A visitor that writes to `target`.
    pub fn make_visitor<'a>(&self, target: &'a mut Sink) -> (v: GlogVisitor<'a>)
        ensures
            v@ == VisitorView::start(old(target)@),
            *final(target) == *final(v.writer),
    {
        GlogVisitor::new(target)
    }

    /// Writes the given fields, in their order, as one text.
    ///
    /// On a closed sink nothing is written and the call fails.
    pub fn format_fields(&self, writer: &mut Sink, fields: &Vec<Field>) -> (r: Result<(), FormatError>)
        ensures
            final(writer)@ == old(writer)@.write(tail_text(old(writer)@.ansi, fields.deep_view())),
            r == old(writer)@.outcome(),
    {
        let ghost before = writer@;
        let ghost all = fields.deep_view();
        let ghost released = *final(writer);
        let mut visitor = self.make_visitor(writer);
        let mut i: usize = 0;
        while i < fields.len()
            invariant
                i <= fields.len(),
                all == fields.deep_view(),
                visitor@ == VisitorView::start(before).record_all(all.take(i as int)),
                *final(visitor.writer) == released,
            decreases fields.len() - i,
        {
            visitor.record(&fields[i]);
            proof {
                assert(all.take(i + 1).drop_last() =~= all.take(i as int));
                assert(all.take(i + 1).last() == fields[i as int].deep_view());
            }
            i += 1;
        }
        proof {
            assert(all.take(fields.len() as int) =~= all);
            if before.closed {
                lemma_record_all_closed(before, all);
            } else {
                lemma_record_all_open(before, all);
            }
        }
        visitor.finish()
    }
}

impl<'a> GlogVisitor<'a> {
    /// A visitor that writes to `writer` and has seen no field yet.
    pub fn new(writer: &'a mut Sink) -> (v: GlogVisitor<'a>)
        ensures
            v@ == VisitorView::start(old(writer)@),
            *final(writer) == *final(v.writer),
    {
        GlogVisitor { writer, is_empty: true, result: Ok(()) }
    }

    /// Writes `value`, with a comma and a space before it unless it is the
    /// first thing shown, and keeps whether the write failed.
    pub fn write_padded(&mut self, value: &str)
        ensures
            final(self)@ == old(self)@.write_padded(value@),
            *final(final(self).writer) == *final(old(self).writer),
    {
        let padding = if self.is_empty {
            self.is_empty = false;
            ""
        } else {
            ", "
        };
        proof {
            reveal_strlit("");
        }
        assert(padding@ =~= padding_text(old(self)@.is_empty));
        self.result = match self.writer.write_str(padding) {
            Ok(()) => self.writer.write_str(value),
            Err(e) => Err(e),
        };
        assert(self@.writer.text =~= old(self)@.write_padded(value@).writer.text);
    }

    /// The style of names: bold where the sink takes colour escapes, plain
    /// where it does not.
    pub fn bold(&self) -> (s: Style)
        ensures
            s == Style::bold_if(self@.writer.ansi),
    {
        if self.writer.has_ansi_escapes() {
            Style::new().bold()
        } else {
            Style::new()
        }
    }

    /// Takes a text field.
    pub fn record_str(&mut self, name: &str, value: &str)
        ensures
            final(self)@ == old(self)@.record_str(name@, value@),
            *final(final(self).writer) == *final(old(self).writer),
    {
        if self.result.is_err() {
            return;
        }
        if same_text(name, "message") {
            self.record_debug(name, value)
        } else {
            let quoted = debug_quote(value);
            self.record_debug(name, quoted.as_str())
        }
    }

    /// Takes an error field.
    pub fn record_error(&mut self, name: &str, value: &ErrorValue)
        ensures
            final(self)@ == old(self)@.record_error(name@, value.deep_view()),
            *final(final(self).writer) == *final(old(self).writer),
    {
        let text = error_value(name, value);
        self.record_debug(name, text.as_str())
    }

    /// Takes a field whose value is already rendered.
    ///
    /// A field whose name begins with `log.` changes nothing.
    pub fn record_debug(&mut self, name: &str, value: &str)
        ensures
            final(self)@ == old(self)@.record_debug(name@, value@),
            is_hidden(name@) ==> final(self)@ == old(self)@,
            *final(final(self).writer) == *final(old(self).writer),
    {
        if self.result.is_err() {
            return;
        }
        let bold = self.bold();
        let plain = Style::new();
        if same_text(name, "message") {
            let mut chunk = String::from_str(bold.prefix());
            chunk.append(value);
            chunk.append(bold.infix(plain));
            assert(chunk@ =~= field_text(self@.writer.ansi, name@, value@));
            self.write_padded(chunk.as_str())
        } else if str_starts_with(name, "log.") {
        } else {
            proof {
                reveal_strlit("r#");
            }
            let shown = if str_starts_with(name, "r#") {
                name.substring_char(2, name.unicode_len())
            } else {
                name
            };
            assert(shown@ =~= shown_name(name@));
            let mut chunk = String::from_str(bold.prefix());
            chunk.append(shown);
            chunk.append(":");
            chunk.append(bold.infix(plain));
            chunk.append(" ");
            chunk.append(value);
            assert(chunk@ =~= field_text(self@.writer.ansi, name@, value@));
            self.write_padded(chunk.as_str())
        }
    }

    /// Takes one field, whatever its kind.
    pub fn record(&mut self, field: &Field)
        ensures
            final(self)@ == old(self)@.record(field.deep_view()),
            *final(final(self).writer) == *final(old(self).writer),
    {
        match &field.value {
            Value::Str(s) => self.record_str(field.name.as_str(), s.as_str()),
            Value::Debug(s) => self.record_debug(field.name.as_str(), s.as_str()),
            Value::Error(e) => self.record_error(field.name.as_str(), e),
        }
    }

    /// Ends the visit: flushes the plain style's suffix, which is empty,
    /// and returns whether any write failed.
    pub fn finish(self) -> (r: Result<(), FormatError>)
        ensures
            r == self@.finish(),
            final(self.writer)@ == self@.writer,
    {
        let mut this = self;
        let plain = Style::new();
        this.writer.write_str(plain.suffix())?;
        assert(this.writer@.text =~= self@.writer.text);
        this.result
    }
}

} // verus!
