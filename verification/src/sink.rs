//! The destination of rendered text.
use vstd::prelude::*;
use vstd::string::StringExecFns;

verus! {

/// Why rendering stopped.
#[derive(Clone, Copy, Debug, PartialEq, Eq, Structural)]
pub enum FormatError {
    /// The sink did not accept the text.
    SinkWrite,
}

/// A text sink: it takes pieces of text one after another, says whether
/// the destination understands colour escapes, and refuses every write once
/// it is closed.
pub struct Sink {
    text: String,
    ansi: bool,
    closed: bool,
}

/// What a sink is to a contract.
pub struct SinkView {
    /// Everything that was written, in order.
    pub text: Seq<char>,
    /// Whether the destination understands colour escapes.
    pub ansi: bool,
    /// Whether the sink refuses text.
    pub closed: bool,
}

impl SinkView {
    /// The sink after an attempt to write `chunk`: a closed sink stays as it
    /// is, an open one has `chunk` at its end.
    pub open spec fn write(self, chunk: Seq<char>) -> SinkView {
        if self.closed {
            self
        } else {
            SinkView { text: self.text + chunk, ..self }
        }
    }

    /// What an attempt to write to this sink returns.
    pub open spec fn outcome(self) -> Result<(), FormatError> {
        if self.closed {
            Err(FormatError::SinkWrite)
        } else {
            Ok(())
        }
    }
}

impl View for Sink {
    type V = SinkView;

    closed spec fn view(&self) -> SinkView {
        SinkView { text: self.text@, ansi: self.ansi, closed: self.closed }
    }
}

impl Sink {
    /// An empty, open sink.
    pub fn new(ansi: bool) -> (s: Sink)
        ensures
            s@ == (SinkView { text: Seq::<char>::empty(), ansi, closed: false }),
    {
        Sink { text: String::new(), ansi, closed: false }
    }

    /// Whether the destination understands colour escapes.
    pub fn has_ansi_escapes(&self) -> (b: bool)
        ensures
            b == self@.ansi,
    {
        self.ansi
    }

    /// Whether the sink refuses text.
    pub fn is_closed(&self) -> (b: bool)
        ensures
            b == self@.closed,
    {
        self.closed
    }

    /// Closes the sink: from now on every write fails.
    pub fn close(&mut self)
        ensures
            final(self)@ == (SinkView { closed: true, ..old(self)@ }),
    {
        self.closed = true;
    }

    /// Writes `s` at the end of the sink, or fails and writes nothing
    /// where the sink is closed.
    pub fn write_str(&mut self, s: &str) -> (r: Result<(), FormatError>)
        ensures
            final(self)@ == old(self)@.write(s@),
            r == old(self)@.outcome(),
    {
        if self.closed {
            Err(FormatError::SinkWrite)
        } else {
            self.text.append(s);
            Ok(())
        }
    }

    /// Everything that was written so far.
    pub fn as_str(&self) -> (s: &str)
        ensures
            s@ == self@.text,
    {
        self.text.as_str()
    }

    /// Gives up the sink for the text that was written to it.
    pub fn into_string(self) -> (s: String)
        ensures
            s@ == self@.text,
    {
        self.text
    }
}

} // verus!
