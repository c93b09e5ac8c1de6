//! The severity of an event.
use vstd::prelude::*;

verus! {

/// How severe an event is.
#[derive(Clone, Copy, Debug, PartialEq, Eq, Structural)]
pub enum Level {
    Trace,
    Debug,
    Info,
    Warn,
    Error,
}

impl Level {
    /// The one letter that opens a line of this severity.
    pub open spec fn letter_text(self) -> Seq<char> {
        match self {
            Level::Trace => "T"@,
            Level::Debug => "D"@,
            Level::Info => "I"@,
            Level::Warn => "W"@,
            Level::Error => "E"@,
        }
    }

    /// The one letter that opens a line of this severity.
    pub fn letter(&self) -> (s: &'static str)
        ensures
            s@ == self.letter_text(),
            s@.len() == 1,
    {
        proof {
            reveal_strlit("T");
            reveal_strlit("D");
            reveal_strlit("I");
            reveal_strlit("W");
            reveal_strlit("E");
        }
        let s = match self {
            Level::Trace => "T",
            Level::Debug => "D",
            Level::Info => "I",
            Level::Warn => "W",
            Level::Error => "E",
        };
        assert(s@ =~= self.letter_text());
        s
    }
}

} // verus!
