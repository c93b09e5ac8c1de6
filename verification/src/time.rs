//! Time stamps: reading the clock and rendering what it showed.
//!
//! A time stamp is written as month, day, a space, then hour, minute and
//! second with colons between them, a point and the microseconds: twenty
//! characters, every number padded with zeros.
use vstd::prelude::*;
use vstd::string::StringExecFns;
use crate::sink::{FormatError, Sink};
use crate::text::{
    fixed_digits, lemma_fixed_digits_len, lemma_fixed_digits_value, numeral_value, pow10, push_fixed,
};

verus! {

/// A reading of the clock, to the microsecond, without the year.
#[derive(Clone, Copy, Debug, PartialEq, Eq, Structural)]
pub struct Timestamp {
    pub month: u8,
    pub day: u8,
    pub hour: u8,
    pub minute: u8,
    pub second: u8,
    pub microsecond: u32,
}

impl Timestamp {
    /// Every part is in the range that a calendar and a clock give it.
    pub open spec fn is_valid(self) -> bool {
        &&& 1 <= self.month <= 12
        &&& 1 <= self.day <= 31
        &&& self.hour < 24
        &&& self.minute < 60
        &&& self.second < 60
        &&& self.microsecond < 1_000_000
    }

    /// The time stamp as a line shows it.
    pub open spec fn text(self) -> Seq<char> {
        fixed_digits(self.month as nat, 2) + fixed_digits(self.day as nat, 2) + seq![' ']
            + fixed_digits(self.hour as nat, 2) + seq![':'] + fixed_digits(self.minute as nat, 2)
            + seq![':'] + fixed_digits(self.second as nat, 2) + seq!['.'] + fixed_digits(
            self.microsecond as nat,
            6,
        )
    }

    /// The time stamp as a line shows it.
    pub fn render(&self) -> (s: String)
        ensures
            s@ == self.text(),
            s@.len() == 20,
    {
        proof {
            reveal_strlit(" ");
            reveal_strlit(":");
            reveal_strlit(".");
            lemma_fixed_digits_len(self.month as nat, 2);
            lemma_fixed_digits_len(self.day as nat, 2);
            lemma_fixed_digits_len(self.hour as nat, 2);
            lemma_fixed_digits_len(self.minute as nat, 2);
            lemma_fixed_digits_len(self.second as nat, 2);
            lemma_fixed_digits_len(self.microsecond as nat, 6);
        }
        let mut s = String::new();
        push_fixed(&mut s, self.month as u32, 2);
        push_fixed(&mut s, self.day as u32, 2);
        s.append(" ");
        push_fixed(&mut s, self.hour as u32, 2);
        s.append(":");
        push_fixed(&mut s, self.minute as u32, 2);
        s.append(":");
        push_fixed(&mut s, self.second as u32, 2);
        s.append(".");
        push_fixed(&mut s, self.microsecond, 6);
        assert(s@ =~= self.text());
        s
    }
}

/// A valid time stamp is shown in full: each of its numbers can be read
/// back from its place in the text.
pub proof fn lemma_valid_timestamp_is_shown_in_full(t: Timestamp)
    requires
        t.is_valid(),
    ensures
        t.text().len() == 20,
        numeral_value(t.text().subrange(0, 2)) == t.month,
        numeral_value(t.text().subrange(2, 4)) == t.day,
        t.text()[4] == ' ',
        numeral_value(t.text().subrange(5, 7)) == t.hour,
        t.text()[7] == ':',
        numeral_value(t.text().subrange(8, 10)) == t.minute,
        t.text()[10] == ':',
        numeral_value(t.text().subrange(11, 13)) == t.second,
        t.text()[13] == '.',
        numeral_value(t.text().subrange(14, 20)) == t.microsecond,
{
    reveal_strlit(" ");
    reveal_strlit(":");
    reveal_strlit(".");
    reveal_with_fuel(pow10, 7);
    let month = fixed_digits(t.month as nat, 2);
    let day = fixed_digits(t.day as nat, 2);
    let hour = fixed_digits(t.hour as nat, 2);
    let minute = fixed_digits(t.minute as nat, 2);
    let second = fixed_digits(t.second as nat, 2);
    let micro = fixed_digits(t.microsecond as nat, 6);
    lemma_fixed_digits_len(t.month as nat, 2);
    lemma_fixed_digits_len(t.day as nat, 2);
    lemma_fixed_digits_len(t.hour as nat, 2);
    lemma_fixed_digits_len(t.minute as nat, 2);
    lemma_fixed_digits_len(t.second as nat, 2);
    lemma_fixed_digits_len(t.microsecond as nat, 6);
    lemma_fixed_digits_value(t.month as nat, 2);
    lemma_fixed_digits_value(t.day as nat, 2);
    lemma_fixed_digits_value(t.hour as nat, 2);
    lemma_fixed_digits_value(t.minute as nat, 2);
    lemma_fixed_digits_value(t.second as nat, 2);
    lemma_fixed_digits_value(t.microsecond as nat, 6);
    let text = t.text();
    assert(text.subrange(0, 2) =~= month);
    assert(text.subrange(2, 4) =~= day);
    assert(text.subrange(5, 7) =~= hour);
    assert(text.subrange(8, 10) =~= minute);
    assert(text.subrange(11, 13) =~= second);
    assert(text.subrange(14, 20) =~= micro);
}

/// What a line shows for a reading of the clock: its text, or nothing
/// where the clock could not be read.
pub open spec fn time_text(now: Option<Timestamp>) -> Seq<char> {
    match now {
        Some(t) => t.text(),
        None => Seq::<char>::empty(),
    }
}

/// Which clock stamps the events.
#[derive(Clone, Copy, Debug, PartialEq, Eq, Structural)]
pub enum Timer {
    /// Coordinated universal time.
    Utc,
    /// The time of the machine's zone. Where the zone's offset cannot be
    /// found out, events carry no time stamp; this is no error.
    Local,
}

/// Reads the clock in universal time, through
/// `time::OffsetDateTime::now_utc`, and keeps the fields that a line shows.
///
/// Believed without proof: each field lies in the range that the accessors
/// of `time::OffsetDateTime` document. Nothing is claimed of the instant.
/// The call panics where the system clock shows an instant beyond the
/// years that `time` can hold.
#[verifier::external_body]
fn utc_now() -> (t: Timestamp)
    ensures
        t.is_valid(),
{
    let now = time::OffsetDateTime::now_utc();
    Timestamp {
        month: u8::from(now.month()),
        day: now.day(),
        hour: now.hour(),
        minute: now.minute(),
        second: now.second(),
        microsecond: now.microsecond(),
    }
}

/// Reads the clock in the machine's zone, through
/// `time::OffsetDateTime::now_local`, and keeps the fields that a line
/// shows; `None` where that function reports that the offset is unknown.
///
/// Believed without proof: each field of a reading lies in the range that
/// the accessors of `time::OffsetDateTime` document. Nothing is claimed of
/// the instant, nor of when a reading is to be had. The call panics where
/// the system clock shows an instant beyond the years that `time` can hold.
#[verifier::external_body]
fn local_now() -> (r: Option<Timestamp>)
    ensures
        r matches Some(t) ==> t.is_valid(),
{
    match time::OffsetDateTime::now_local() {
        Ok(now) => Some(
            Timestamp {
                month: u8::from(now.month()),
                day: now.day(),
                hour: now.hour(),
                minute: now.minute(),
                second: now.second(),
                microsecond: now.microsecond(),
            },
        ),
        Err(_) => None,
    }
}

impl Timer {
    /// What this clock may show: universal time can always be read, and
    /// every reading is valid.
    pub open spec fn may_read(self, now: Option<Timestamp>) -> bool {
        &&& self == Timer::Utc ==> now is Some
        &&& now matches Some(t) ==> t.is_valid()
    }

    /// Reads this clock.
    pub fn now(&self) -> (r: Option<Timestamp>)
        ensures
            self.may_read(r),
    {
        match self {
            Timer::Utc => Some(utc_now()),
            Timer::Local => local_now(),
        }
    }

    /// Reads this clock and writes the time stamp to the sink.
    ///
    /// Where the local offset is unknown, nothing is written and the call
    /// succeeds. Whatever the clock shows, the sink ends as [`write_time`]
    /// leaves it for that reading.
    pub fn format_time(&self, writer: &mut Sink) -> (r: Result<(), FormatError>)
        ensures
            exists|now: Option<Timestamp>|
                {
                    &&& self.may_read(now)
                    &&& final(writer)@ == old(writer)@.write(#[trigger] time_text(now))
                    &&& r == time_outcome(old(writer)@.closed, now)
                },
    {
        let now = self.now();
        write_time(writer, now)
    }
}

/// What writing a reading of the clock returns: an absent reading is
/// passed over in silence, a present one is written.
pub open spec fn time_outcome(closed: bool, now: Option<Timestamp>) -> Result<(), FormatError> {
    if now is Some && closed {
        Err(FormatError::SinkWrite)
    } else {
        Ok(())
    }
}

/// Writes a reading of the clock to the sink: its twenty characters, or
/// nothing where there is no reading.
pub fn write_time(writer: &mut Sink, now: Option<Timestamp>) -> (r: Result<(), FormatError>)
    ensures
        final(writer)@ == old(writer)@.write(time_text(now)),
        r == time_outcome(old(writer)@.closed, now),
{
    match now {
        Some(t) => {
            let s = t.render();
            writer.write_str(s.as_str())
        },
        None => {
            assert(writer@.text + Seq::<char>::empty() =~= writer@.text);
            Ok(())
        },
    }
}

} // verus!
