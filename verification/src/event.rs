//! What the host hands over for one event: the event with its fields, and
//! the process that logs it.
use vstd::prelude::*;
use crate::level::Level;

verus! {

/// An error with the chain of what caused it.
#[derive(Clone, Debug)]
pub struct ErrorValue {
    /// What the error says of itself.
    pub message: String,
    /// What each cause says of itself: first the error's own cause, then
    /// the cause of that one, and so on to the end of the chain.
    pub sources: Vec<String>,
}

/// An [`ErrorValue`] in a contract.
pub struct ErrorValueView {
    pub message: Seq<char>,
    pub sources: Seq<Seq<char>>,
}

impl DeepView for ErrorValue {
    type V = ErrorValueView;

    open spec fn deep_view(&self) -> ErrorValueView {
        ErrorValueView { message: self.message@, sources: self.sources.deep_view() }
    }
}

/// The value of a field.
#[derive(Clone, Debug)]
pub enum Value {
    /// A text. It is shown quoted, but for the message, which is shown bare.
    Str(String),
    /// Any other value, as its debug rendering.
    Debug(String),
    /// An error with its causes.
    Error(ErrorValue),
}

/// A [`Value`] in a contract.
pub enum ValueView {
    Str(Seq<char>),
    Debug(Seq<char>),
    Error(ErrorValueView),
}

impl DeepView for Value {
    type V = ValueView;

    open spec fn deep_view(&self) -> ValueView {
        match self {
            Value::Str(s) => ValueView::Str(s@),
            Value::Debug(s) => ValueView::Debug(s@),
            Value::Error(e) => ValueView::Error(e.deep_view()),
        }
    }
}

/// A named value that an event or a span carries.
#[derive(Clone, Debug)]
pub struct Field {
    pub name: String,
    pub value: Value,
}

/// A [`Field`] in a contract.
pub struct FieldView {
    pub name: Seq<char>,
    pub value: ValueView,
}

impl DeepView for Field {
    type V = FieldView;

    open spec fn deep_view(&self) -> FieldView {
        FieldView { name: self.name@, value: self.value.deep_view() }
    }
}

/// One log event.
#[derive(Clone, Debug)]
pub struct Event {
    pub level: Level,
    /// The part of the program that the event belongs to.
    pub target: String,
    /// The source file that logged the event.
    pub file: String,
    /// The line in that file.
    pub line: u32,
    /// The fields, in the order in which they were given.
    pub fields: Vec<Field>,
}

/// An [`Event`] in a contract.
pub struct EventView {
    pub level: Level,
    pub target: Seq<char>,
    pub file: Seq<char>,
    pub line: u32,
    pub fields: Seq<FieldView>,
}

impl DeepView for Event {
    type V = EventView;

    open spec fn deep_view(&self) -> EventView {
        EventView {
            level: self.level,
            target: self.target@,
            file: self.file@,
            line: self.line,
            fields: self.fields.deep_view(),
        }
    }
}

/// The process and the thread that log an event.
#[derive(Clone, Debug)]
pub struct ProcessData {
    pub pid: u32,
    /// The name of the current thread, where it has one.
    pub thread_name: Option<String>,
}

/// A [`ProcessData`] in a contract.
pub struct ProcessDataView {
    pub pid: u32,
    pub thread_name: Option<Seq<char>>,
}

impl DeepView for ProcessData {
    type V = ProcessDataView;

    open spec fn deep_view(&self) -> ProcessDataView {
        ProcessDataView { pid: self.pid, thread_name: self.thread_name.deep_view() }
    }
}

} // verus!
