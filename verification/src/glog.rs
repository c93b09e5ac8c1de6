//! The formatter of events and its configuration.
use vstd::prelude::*;
use vstd::string::StringExecFns;
use crate::event::{Event, EventView, ProcessData, ProcessDataView};
use crate::fields::{tail_text, GlogFields};
use crate::path::{display_path, location_text};
use crate::sink::{FormatError, Sink, SinkView};
use crate::span::{chain_text, write_chain, ContextChain, SpanFrameView};
use crate::text::{decimal, push_decimal};
use crate::time::{time_text, write_time, Timer, Timestamp};

verus! {

/// A formatter of events in the style of glog. It is configured once and
/// never changes while it formats.
pub struct Glog {
    timer: Timer,
    with_span_context: bool,
    with_thread_names: bool,
    with_target: bool,
    with_trimmed_directory: bool,
    with_strip_prefix: Option<String>,
}

/// The configuration of a [`Glog`] in a contract.
pub struct GlogView {
    /// Which clock stamps the events.
    pub timer: Timer,
    /// Whether the active spans are shown.
    pub with_span_context: bool,
    /// Whether the name of the thread is shown.
    pub with_thread_names: bool,
    /// Whether the target of the event is shown.
    pub with_target: bool,
    /// Whether the source file is shown by its last segment only.
    pub with_trimmed_directory: bool,
    /// The segment up to which the source file's path is stripped.
    pub with_strip_prefix: Option<Seq<char>>,
}

impl View for Glog {
    type V = GlogView;

    closed spec fn view(&self) -> GlogView {
        GlogView {
            timer: self.timer,
            with_span_context: self.with_span_context,
            with_thread_names: self.with_thread_names,
            with_target: self.with_target,
            with_trimmed_directory: self.with_trimmed_directory,
            with_strip_prefix: self.with_strip_prefix.deep_view(),
        }
    }
}

/// The configuration that a formatter starts with.
pub open spec fn default_config() -> GlogView {
    GlogView {
        timer: Timer::Utc,
        with_span_context: true,
        with_thread_names: false,
        with_target: false,
        with_trimmed_directory: false,
        with_strip_prefix: None,
    }
}

impl Default for Glog {
    /// Universal time, spans shown, no thread name, no target, the source
    /// file's path as it is.
    fn default() -> (g: Glog)
        ensures
            g@ == default_config(),
    {
        Glog {
            timer: Timer::Utc,
            with_thread_names: false,
            with_target: false,
            with_span_context: true,
            with_trimmed_directory: false,
            with_strip_prefix: None,
        }
    }
}

/// The name of the thread with a space behind, where names are shown and
/// the thread has one; else nothing.
pub open spec fn thread_text(shown: bool, name: Option<Seq<char>>) -> Seq<char> {
    match name {
        Some(n) => if shown {
            n + " "@
        } else {
            Seq::<char>::empty()
        },
        None => Seq::<char>::empty(),
    }
}

/// The target in square brackets with a space behind, where targets are
/// shown; else nothing.
pub open spec fn target_text(shown: bool, target: Seq<char>) -> Seq<char> {
    if shown {
        "["@ + target + "] "@
    } else {
        Seq::<char>::empty()
    }
}

/// The part of the header that tells where the event comes from: a space,
/// the process id, a space, the thread name and the target as far as they
/// are shown, and the source location.
pub open spec fn process_text(config: GlogView, process: ProcessDataView, event: EventView) -> Seq<char> {
    " "@ + decimal(process.pid as nat) + " "@ + thread_text(config.with_thread_names, process.thread_name)
        + target_text(config.with_target, event.target) + location_text(
        event.file,
        event.line,
        config.with_trimmed_directory,
        config.with_strip_prefix,
    )
}

/// The header of a line: the letter of the severity, the time stamp, the
/// process part, a closing bracket and a space.
pub open spec fn header_text(
    config: GlogView,
    now: Option<Timestamp>,
    process: ProcessDataView,
    event: EventView,
) -> Seq<char> {
    event.level.letter_text() + time_text(now) + process_text(config, process, event) + "] "@
}

/// The whole line for one event: header, span segment, fields, line feed.
pub open spec fn line_text(
    config: GlogView,
    now: Option<Timestamp>,
    process: ProcessDataView,
    chain: Option<Seq<SpanFrameView>>,
    event: EventView,
    ansi: bool,
) -> Seq<char> {
    header_text(config, now, process, event) + chain_text(config.with_span_context, chain) + tail_text(
        ansi,
        event.fields,
    ) + "\n"@
}

impl Glog {
    /// Stamps the events with the given clock.
    pub fn with_timer(self, timer: Timer) -> (g: Glog)
        ensures
            g@ == (GlogView { timer, ..self@ }),
    {
        Glog { timer, ..self }
    }

    /// Sets whether the name of the thread is shown.
    pub fn with_thread_names(self, with_thread_names: bool) -> (g: Glog)
        ensures
            g@ == (GlogView { with_thread_names, ..self@ }),
    {
        Glog { with_thread_names, ..self }
    }

    /// Sets whether the target of the event is shown.
    pub fn with_target(self, with_target: bool) -> (g: Glog)
        ensures
            g@ == (GlogView { with_target, ..self@ }),
    {
        Glog { with_target, ..self }
    }

    /// Sets whether the source file is shown by its last segment only.
    pub fn with_trimmed_directory(self, with_trimmed_directory: bool) -> (g: Glog)
        ensures
            g@ == (GlogView { with_trimmed_directory, ..self@ }),
    {
        Glog { with_trimmed_directory, ..self }
    }

    /// Sets the segment up to which the source file's path is stripped, or
    /// that none is.
    pub fn with_strip_prefix(self, with_strip_prefix: Option<&str>) -> (g: Glog)
        ensures
            g@ == (GlogView { with_strip_prefix: with_strip_prefix.deep_view(), ..self@ }),
    {
        let prefix = match with_strip_prefix {
            Some(s) => Some(String::from_str(s)),
            None => None,
        };
        Glog { with_strip_prefix: prefix, ..self }
    }

    /// Sets whether the active spans are shown. They are by default.
    pub fn with_span_context(self, with_span_context: bool) -> (g: Glog)
        ensures
            g@ == (GlogView { with_span_context, ..self@ }),
    {
        Glog { with_span_context, ..self }
    }

    /// Which clock stamps the events.
    pub fn timer(&self) -> (t: Timer)
        ensures
            t == self@.timer,
    {
        self.timer
    }

    /// Renders the part of the header that tells where the event comes
    /// from.
    pub fn format_process_data(&self, process: &ProcessData, event: &Event) -> (r: String)
        ensures
            r@ == process_text(self@, process.deep_view(), event.deep_view()),
    {
        let mut out = String::from_str(" ");
        push_decimal(&mut out, process.pid);
        out.append(" ");
        if self.with_thread_names {
            match &process.thread_name {
                Some(name) => {
                    out.append(name.as_str());
                    out.append(" ");
                },
                None => {},
            }
        }
        if self.with_target {
            out.append("[");
            out.append(event.target.as_str());
            out.append("] ");
        }
        let prefix = match &self.with_strip_prefix {
            Some(p) => Some(p.as_str()),
            None => None,
        };
        out.append(display_path(event.file.as_str(), self.with_trimmed_directory, prefix));
        out.append(":");
        push_decimal(&mut out, event.line);
        assert(out@ =~= process_text(self@, process.deep_view(), event.deep_view()));
        out
    }

    /// Writes the header of the line for one event: the letter of its
    /// severity, the time stamp, the process part, a closing bracket and a
    /// space. On a closed sink nothing is written and the call fails.
    pub fn write_header(
        &self,
        writer: &mut Sink,
        event: &Event,
        process: &ProcessData,
        now: Option<Timestamp>,
    ) -> (r: Result<(), FormatError>)
        ensures
            final(writer)@ == old(writer)@.write(
                header_text(self@, now, process.deep_view(), event.deep_view()),
            ),
            r == old(writer)@.outcome(),
    {
        let ghost before = writer@;
        let ghost letter = event.level.letter_text();
        let ghost stamp = time_text(now);
        let ghost data = process_text(self@, process.deep_view(), event.deep_view());
        writer.write_str(event.level.letter())?;
        assert(writer@ == (SinkView { text: before.text + letter, ..before }));
        write_time(writer, now)?;
        assert(writer@ == (SinkView { text: before.text + letter + stamp, ..before }));
        let rendered = self.format_process_data(process, event);
        writer.write_str(rendered.as_str())?;
        assert(writer@ == (SinkView { text: before.text + letter + stamp + data, ..before }));
        writer.write_str("] ")?;
        assert(writer@.text =~= before.text + (letter + stamp + data + "] "@));
        Ok(())
    }

    /// Formats one event into the sink, stamped with the given reading of
    /// the clock.
    ///
    /// The sink receives exactly one line: the header, the active spans
    /// where they are shown, the fields, and a line feed. On a closed sink
    /// nothing is written and the call fails.
    pub fn format_event_at(
        &self,
        ctx: Option<&ContextChain>,
        writer: &mut Sink,
        event: &Event,
        process: &ProcessData,
        now: Option<Timestamp>,
    ) -> (r: Result<(), FormatError>)
        ensures
            final(writer)@ == old(writer)@.write(
                line_text(
                    self@,
                    now,
                    process.deep_view(),
                    ctx.deep_view(),
                    event.deep_view(),
                    old(writer)@.ansi,
                ),
            ),
            r == old(writer)@.outcome(),
    {
        let ghost before = writer@;
        let ghost header = header_text(self@, now, process.deep_view(), event.deep_view());
        let ghost chain = chain_text(self@.with_span_context, ctx.deep_view());
        let ghost tail = tail_text(before.ansi, event.deep_view().fields);
        self.write_header(writer, event, process, now)?;
        assert(writer@ == (SinkView { text: before.text + header, ..before }));
        write_chain(writer, self.with_span_context, ctx)?;
        assert(writer@ == (SinkView { text: before.text + header + chain, ..before }));
        let fields = GlogFields;
        fields.format_fields(writer, &event.fields)?;
        assert(writer@ == (SinkView { text: before.text + header + chain + tail, ..before }));
        writer.write_str("\n")?;
        assert(writer@.text =~= before.text + (header + chain + tail + "\n"@));
        Ok(())
    }

    /// Reads the configured clock and formats one event into the sink.
    ///
    /// Whatever the clock shows, the sink ends as [`Glog::format_event_at`]
    /// leaves it for that reading.
    pub fn format_event(
        &self,
        ctx: Option<&ContextChain>,
        writer: &mut Sink,
        event: &Event,
        process: &ProcessData,
    ) -> (r: Result<(), FormatError>)
        ensures
            exists|now: Option<Timestamp>|
                {
                    &&& self@.timer.may_read(now)
                    &&& final(writer)@ == old(writer)@.write(
                        #[trigger] line_text(
                            self@,
                            now,
                            process.deep_view(),
                            ctx.deep_view(),
                            event.deep_view(),
                            old(writer)@.ansi,
                        ),
                    )
                },
            r == old(writer)@.outcome(),
    {
        let now = self.timer.now();
        self.format_event_at(ctx, writer, event, process, now)
    }
}

/// Where spans are not shown, or none is active, the line has no span
/// segment at all: the fields follow the header directly.
pub proof fn lemma_line_without_spans(
    config: GlogView,
    now: Option<Timestamp>,
    process: ProcessDataView,
    chain: Option<Seq<SpanFrameView>>,
    event: EventView,
    ansi: bool,
)
    requires
        !config.with_span_context || chain is None,
    ensures
        chain_text(config.with_span_context, chain).len() == 0,
        line_text(config, now, process, chain, event, ansi) == header_text(config, now, process, event)
            + tail_text(ansi, event.fields) + "\n"@,
{
    let header = header_text(config, now, process, event);
    assert(header + Seq::<char>::empty() =~= header);
}

/// Formatting is repeatable: the same event, formatted with the same
/// configuration, clock reading, process and spans into two sinks of the
/// same kind, adds the same text to both and returns the same.
pub proof fn lemma_format_event_repeatable(
    config: GlogView,
    now: Option<Timestamp>,
    process: ProcessDataView,
    chain: Option<Seq<SpanFrameView>>,
    event: EventView,
    first: SinkView,
    second: SinkView,
)
    requires
        first.ansi == second.ansi,
        first.closed == second.closed,
    ensures
        first.outcome() == second.outcome(),
        first.write(line_text(config, now, process, chain, event, first.ansi)).text.skip(
            first.text.len() as int,
        ) == second.write(line_text(config, now, process, chain, event, second.ansi)).text.skip(
            second.text.len() as int,
        ),
{
    let line = line_text(config, now, process, chain, event, first.ansi);
    if first.closed {
        assert(first.text.skip(first.text.len() as int) =~= second.text.skip(second.text.len() as int));
    } else {
        assert((first.text + line).skip(first.text.len() as int) =~= line);
        assert((second.text + line).skip(second.text.len() as int) =~= line);
    }
}

} // verus!
