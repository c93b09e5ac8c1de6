//! The chain of spans that are active while an event is logged.
//!
//! The chain is shown in square brackets, from the outermost span to the
//! innermost, each with its fields in braces where it has any:
//! `[request{id: 7}, parse] `.
use vstd::prelude::*;
use crate::sink::{FormatError, Sink, SinkView};
use crate::text::{join, lemma_join_step};

verus! {

/// One active span: its name and its fields as they were rendered when the
/// span was entered.
#[derive(Clone, Debug)]
pub struct SpanFrame {
    pub name: String,
    /// The rendered fields; empty where the span has none.
    pub fields: String,
}

/// A [`SpanFrame`] in a contract.
pub struct SpanFrameView {
    pub name: Seq<char>,
    pub fields: Seq<char>,
}

impl DeepView for SpanFrame {
    type V = SpanFrameView;

    open spec fn deep_view(&self) -> SpanFrameView {
        SpanFrameView { name: self.name@, fields: self.fields@ }
    }
}

/// The active spans from the outermost to the innermost. A chain holds at
/// least one span: where no span is active there is no chain.
pub struct ContextChain {
    frames: Vec<SpanFrame>,
}

impl DeepView for ContextChain {
    type V = Seq<SpanFrameView>;

    closed spec fn deep_view(&self) -> Seq<SpanFrameView> {
        self.frames.deep_view()
    }
}

/// A span name, with the given fields in braces behind it.
pub open spec fn span_text(name: Seq<char>, fields: Option<Seq<char>>) -> Seq<char> {
    match fields {
        Some(f) => name + "{"@ + f + "}"@,
        None => name,
    }
}

/// One span as the chain shows it: its name, and its fields in braces
/// where it has any.
pub open spec fn frame_text(frame: SpanFrameView) -> Seq<char> {
    span_text(
        frame.name,
        if frame.fields.len() > 0 {
            Some(frame.fields)
        } else {
            None
        },
    )
}

/// The spans with a comma and a space between each two.
pub open spec fn frames_text(frames: Seq<SpanFrameView>) -> Seq<char> {
    join(frames.map_values(|f: SpanFrameView| frame_text(f)), ", "@)
}

/// The span segment of a line: the chain in square brackets with a space
/// behind, or nothing at all where spans are not shown or none is active.
pub open spec fn chain_text(enabled: bool, chain: Option<Seq<SpanFrameView>>) -> Seq<char> {
    match chain {
        Some(frames) => if enabled {
            "["@ + frames_text(frames) + "] "@
        } else {
            Seq::<char>::empty()
        },
        None => Seq::<char>::empty(),
    }
}

/// What writing the span segment returns: it fails only where there is
/// something to write and the sink is closed.
pub open spec fn chain_outcome(closed: bool, enabled: bool, chain: Option<Seq<SpanFrameView>>) -> Result<
    (),
    FormatError,
> {
    if enabled && chain is Some && closed {
        Err(FormatError::SinkWrite)
    } else {
        Ok(())
    }
}

impl ContextChain {
    #[verifier::type_invariant]
    spec fn holds_a_frame(self) -> bool {
        self.frames.len() > 0
    }

    /// The chain of one span.
    pub fn new(root: SpanFrame) -> (c: ContextChain)
        ensures
            c.deep_view() == seq![root.deep_view()],
    {
        let mut frames: Vec<SpanFrame> = Vec::new();
        frames.push(root);
        let c = ContextChain { frames };
        assert(c.deep_view() =~= seq![root.deep_view()]);
        c
    }

    /// The chain of the given spans, outermost first; `None` where there
    /// is no span.
    pub fn from_root(frames: Vec<SpanFrame>) -> (r: Option<ContextChain>)
        ensures
            frames.len() == 0 <==> r is None,
            r matches Some(c) ==> c.deep_view() == frames.deep_view(),
    {
        if frames.len() == 0 {
            None
        } else {
            Some(ContextChain { frames })
        }
    }

    /// How many spans are active: at least one.
    pub fn len(&self) -> (n: usize)
        ensures
            n == self.deep_view().len(),
            n > 0,
    {
        proof {
            use_type_invariant(self);
        }
        self.frames.len()
    }
}

/// Writes a span name, with the given fields in braces behind it.
pub fn write_span(writer: &mut Sink, name: &str, fields: Option<&str>) -> (r: Result<(), FormatError>)
    ensures
        final(writer)@ == old(writer)@.write(span_text(name@, fields.deep_view())),
        r == old(writer)@.outcome(),
{
    writer.write_str(name)?;
    match fields {
        Some(f) => {
            writer.write_str("{")?;
            writer.write_str(f)?;
            writer.write_str("}")?;
            assert(writer@.text =~= old(writer)@.text + span_text(name@, fields.deep_view()));
        },
        None => {},
    }
    Ok(())
}

/// Writes the span segment of a line.
///
/// Where spans are not shown, or no chain is active, nothing is written,
/// not even the brackets. Else the chain is written in square brackets,
/// outermost span first, with a space behind.
pub fn write_chain(writer: &mut Sink, enabled: bool, chain: Option<&ContextChain>) -> (r: Result<
    (),
    FormatError,
>)
    ensures
        final(writer)@ == old(writer)@.write(chain_text(enabled, chain.deep_view())),
        r == chain_outcome(old(writer)@.closed, enabled, chain.deep_view()),
        !enabled || chain is None ==> final(writer)@ == old(writer)@,
{
    let ghost before = writer@;
    assert(before.text + Seq::<char>::empty() =~= before.text);
    if !enabled {
        return Ok(());
    }
    let c = match chain {
        Some(c) => c,
        None => {
            return Ok(());
        },
    };
    let ghost texts = c.deep_view().map_values(|f: SpanFrameView| frame_text(f));
    writer.write_str("[")?;
    let n = c.frames.len();
    let mut i: usize = 0;
    while i < n
        invariant
            i <= n,
            n == c.frames.len(),
            texts == c.deep_view().map_values(|f: SpanFrameView| frame_text(f)),
            !before.closed,
            writer@ == (SinkView { text: before.text + "["@ + join(texts.take(i as int), ", "@), ..before }),
        decreases n - i,
    {
        if i > 0 {
            writer.write_str(", ")?;
        }
        let frame = &c.frames[i];
        let fields = if frame.fields.as_str().is_empty() {
            None
        } else {
            Some(frame.fields.as_str())
        };
        write_span(writer, frame.name.as_str(), fields)?;
        proof {
            lemma_join_step(texts, ", "@, i as int);
            assert(texts[i as int] == frame_text(c.deep_view()[i as int]));
            assert(c.deep_view()[i as int] == frame.deep_view());
            assert(writer@.text =~= before.text + "["@ + join(texts.take(i + 1), ", "@));
        }
        i += 1;
    }
    assert(texts.take(n as int) =~= texts);
    writer.write_str("] ")?;
    assert(writer@.text =~= before.text + chain_text(enabled, chain.deep_view()));
    Ok(())
}

} // verus!
