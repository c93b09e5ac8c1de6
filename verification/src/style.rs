//! Text styling that can be switched off as a whole.
use vstd::prelude::*;

verus! {

/// How a piece of text is emphasised on a terminal.
///
/// A style is either plain or bold. Every operation of the plain style gives
/// the empty text, so a renderer asks the style for its escape sequences
/// without testing whether styling is on.
#[derive(Clone, Copy, Debug, PartialEq, Eq, Structural)]
pub struct Style {
    pub is_bold: bool,
}

/// The escape sequence that switches bold on.
pub open spec fn bold_on() -> Seq<char> {
    "\x1b[1m"@
}

/// The escape sequence that switches every attribute off.
pub open spec fn reset() -> Seq<char> {
    "\x1b[0m"@
}

impl Style {
    /// What has to be written before text in this style.
    pub open spec fn prefix_text(self) -> Seq<char> {
        if self.is_bold {
            bold_on()
        } else {
            Seq::<char>::empty()
        }
    }

    /// What has to be written after text in this style.
    pub open spec fn suffix_text(self) -> Seq<char> {
        if self.is_bold {
            reset()
        } else {
            Seq::<char>::empty()
        }
    }

    /// What has to be written between text in this style and text in `next`.
    pub open spec fn infix_text(self, next: Style) -> Seq<char> {
        if self == next {
            Seq::<char>::empty()
        } else {
            self.suffix_text() + next.prefix_text()
        }
    }

    /// The bold style where `on` holds, the plain style where it does not.
    pub open spec fn bold_if(on: bool) -> Style {
        Style { is_bold: on }
    }

    /// The plain style.
    pub fn new() -> (s: Style)
        ensures
            s == Style::bold_if(false),
            s.prefix_text().len() == 0,
            s.suffix_text().len() == 0,
    {
        Style { is_bold: false }
    }

    /// This style with bold switched on.
    pub fn bold(&self) -> (s: Style)
        ensures
            s == Style::bold_if(true),
    {
        Style { is_bold: true }
    }

    /// The text to write before a styled piece.
    pub fn prefix(&self) -> (s: &'static str)
        ensures
            s@ == self.prefix_text(),
    {
        proof {
            reveal_strlit("\x1b[1m");
            reveal_strlit("");
        }
        let s = if self.is_bold {
            "\x1b[1m"
        } else {
            ""
        };
        assert(s@ =~= self.prefix_text());
        s
    }

    /// The text to write between a piece in this style and one in `next`.
    pub fn infix(&self, next: Style) -> (s: &'static str)
        ensures
            s@ == self.infix_text(next),
    {
        proof {
            reveal_strlit("\x1b[1m");
            reveal_strlit("\x1b[0m");
            reveal_strlit("");
        }
        let s = if self.is_bold == next.is_bold {
            ""
        } else if self.is_bold {
            "\x1b[0m"
        } else {
            "\x1b[1m"
        };
        assert(s@ =~= self.infix_text(next));
        s
    }

    /// The text to write after a styled piece.
    pub fn suffix(&self) -> (s: &'static str)
        ensures
            s@ == self.suffix_text(),
    {
        proof {
            reveal_strlit("\x1b[0m");
            reveal_strlit("");
        }
        let s = if self.is_bold {
            "\x1b[0m"
        } else {
            ""
        };
        assert(s@ =~= self.suffix_text());
        s
    }
}

} // verus!
