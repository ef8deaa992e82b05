//! The wall clock that stamps events.

use vstd::prelude::*;

verus! {

#[verifier::external_type_specification]
#[verifier::external_body]
pub struct ExNaiveDateTime(chrono::NaiveDateTime);

/// The current local date and time: what `chrono::Local::now` reads from the
/// system clock, taken as the wall-clock reading by `DateTime::naive_local`.
/// Nothing is claimed of the value: it differs from call to call.
#[verifier::external_body]
pub(crate) fn now() -> (t: chrono::NaiveDateTime) {
    chrono::Local::now().naive_local()
}

/// The format in which a line of traffic shows the time of day: hours,
/// minutes and seconds, two digits each.
pub open spec fn clock_format() -> Seq<char> {
    "%H:%M:%S"@
}

/// `time` written in `format`, by `NaiveDateTime::format` and the conversion
/// of its result to text. That conversion panics on a format that chrono
/// cannot read, so the precondition admits only the format of the time of
/// day, whose three specifiers chrono documents. Nothing is claimed of the
/// text.
#[verifier::external_body]
pub(crate) fn format_time(time: &chrono::NaiveDateTime, format: &str) -> (text: String)
    requires
        format@ == clock_format(),
{
    time.format(format).to_string()
}

/// The local time of day, now, as text.
pub(crate) fn clock_text() -> (text: String) {
    let time = now();
    format_time(&time, "%H:%M:%S")
}

} // verus!
