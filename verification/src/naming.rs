//! How a snapshot file is named after the local time at which it is written.

use vstd::prelude::*;
use vstd::string::StringExecFns;
use vstd::string::StrSliceExecFns;
use crate::clock::ClockTime;
use crate::clock::ClockView;

verus! {

/// The pattern by which a time of day is first written out: the hour on the
/// 12-hour clock without padding, a colon, the minute in two digits, and
/// `am` or `pm`.
pub const CLOCK_PATTERN: &'static str = "%-I:%M%P";

/// The extension of every snapshot file.
pub const EXTENSION: &'static str = ".json";

/// The suffix that marks a snapshot of the monitor collection.
pub const SNAPSHOT_SUFFIX: &'static str = "_monitors";

/// The decimal digit `d` as a character.
pub open spec fn digit_char(d: int) -> char {
    if d == 0 {
        '0'
    } else if d == 1 {
        '1'
    } else if d == 2 {
        '2'
    } else if d == 3 {
        '3'
    } else if d == 4 {
        '4'
    } else if d == 5 {
        '5'
    } else if d == 6 {
        '6'
    } else if d == 7 {
        '7'
    } else if d == 8 {
        '8'
    } else {
        '9'
    }
}

/// The hour on the 12-hour clock: 12 at midnight and at noon.
pub open spec fn hour12(hour: int) -> int {
    if hour % 12 == 0 {
        12
    } else {
        hour % 12
    }
}

/// A number below 100 in decimal, without padding.
pub open spec fn unpadded(n: int) -> Seq<char> {
    if n >= 10 {
        seq![digit_char(n / 10), digit_char(n % 10)]
    } else {
        seq![digit_char(n)]
    }
}

/// A number below 100 in two decimal digits.
pub open spec fn two_digits(n: int) -> Seq<char> {
    seq![digit_char(n / 10), digit_char(n % 10)]
}

/// `am` before noon, `pm` from noon on.
pub open spec fn meridiem(hour: int) -> Seq<char> {
    if hour >= 12 {
        seq!['p', 'm']
    } else {
        seq!['a', 'm']
    }
}

/// The time of day with `separator` between hour and minute, such as
/// `3:07pm`.
pub open spec fn clock_text(time: ClockView, separator: char) -> Seq<char> {
    unpadded(hour12(time.hour)) + seq![separator] + two_digits(time.minute) + meridiem(time.hour)
}

/// `text` with every `from` replaced by `to`.
pub open spec fn replaced(text: Seq<char>, from: char, to: char) -> Seq<char> {
    Seq::new(
        text.len(),
        |i: int|
            if text[i] == from {
                to
            } else {
                text[i]
            },
    )
}

/// The name of a file written at `time` under `suffix`: the time of day,
/// the suffix right behind it, and the extension.
pub open spec fn file_name_text(time: ClockView, suffix: Seq<char>) -> Seq<char> {
    clock_text(time, '_') + suffix + EXTENSION@
}

/// Different times of day have different names: the name shows the hour of
/// the 12-hour clock, the minute and the half of the day, and these fix the
/// time.
pub proof fn lemma_names_tell_times_apart(first: ClockView, second: ClockView, suffix: Seq<char>)
    requires
        first.is_valid(),
        second.is_valid(),
        first != second,
    ensures
        file_name_text(first, suffix) != file_name_text(second, suffix),
{
    let a = clock_text(first, '_');
    let b = clock_text(second, '_');
    let tail = suffix + EXTENSION@;
    if file_name_text(first, suffix) == file_name_text(second, suffix) {
        assert(file_name_text(first, suffix) =~= a + tail);
        assert(file_name_text(second, suffix) =~= b + tail);
        assert forall|i: int| 0 <= i < a.len() implies a[i] == b[i] by {
            assert((a + tail)[i] == a[i] && (b + tail)[i] == b[i]);
        }
        lemma_clock_text_fixes_the_time(first, second);
    }
}

/// Two valid times of day that are written out alike are the same time.
proof fn lemma_clock_text_fixes_the_time(first: ClockView, second: ClockView)
    requires
        first.is_valid(),
        second.is_valid(),
        clock_text(first, '_').len() == clock_text(second, '_').len(),
        forall|i: int|
            0 <= i < clock_text(first, '_').len() ==> clock_text(first, '_')[i] == clock_text(
                second,
                '_',
            )[i],
    ensures
        first == second,
{
    let a = clock_text(first, '_');
    let b = clock_text(second, '_');
    let h1 = hour12(first.hour);
    let h2 = hour12(second.hour);
    let n = unpadded(h1).len() as int;
    assert(a[n + 1] == digit_char(first.minute / 10) && b[n + 1] == digit_char(second.minute / 10));
    assert(a[n + 2] == digit_char(first.minute % 10) && b[n + 2] == digit_char(second.minute % 10));
    assert(a[n + 3] == meridiem(first.hour)[0] && b[n + 3] == meridiem(second.hour)[0]);
    assert(a[0] == unpadded(h1)[0] && b[0] == unpadded(h2)[0]);
    if n == 2 {
        assert(a[1] == unpadded(h1)[1] && b[1] == unpadded(h2)[1]);
    }
}

/// Formats a time of day with chrono's `NaiveTime::format`, on the time
/// that `NaiveTime::from_hms_opt` makes of the hour, the minute and second
/// zero. For the pattern `%-I:%M%P` chrono's strftime table gives the hour
/// of the 12-hour clock with its padding suppressed, the literal colon, the
/// minute zero-padded to two digits, and `am` or `pm`; the contract claims
/// exactly that text, and claims it of no other pattern. With that pattern
/// and a valid time chrono neither fails nor panics.
#[verifier::external_body]
fn format_clock(hour: u32, minute: u32, pattern: &str) -> (text: String)
    requires
        hour < 24,
        minute < 60,
        pattern@ == CLOCK_PATTERN@,
    ensures
        text@ == clock_text(ClockView { hour: hour as int, minute: minute as int }, ':'),
{
    match chrono::NaiveTime::from_hms_opt(hour, minute, 0) {
        Some(time) => time.format(pattern).to_string(),
        None => String::new(),
    }
}

/// std's `String::push` appends one character to the string.
pub assume_specification[ String::push ](text: &mut String, c: char)
    ensures
        final(text)@ == old(text)@.push(c),
;

/// A copy of `text` in which every `from` has become `to`.
pub fn replace_char(text: &str, from: char, to: char) -> (out: String)
    ensures
        out@ == replaced(text@, from, to),
{
    let n = text.unicode_len();
    let mut out = String::new();
    let mut i: usize = 0;
    while i < n
        invariant
            n == text@.len(),
            i <= n,
            out@ == replaced(text@, from, to).subrange(0, i as int),
        decreases n - i,
    {
        let c = text.get_char(i);
        if c == from {
            out.push(to);
        } else {
            out.push(c);
        }
        i = i + 1;
    }
    out
}

/// Replacing the colon of a written-out time by an underscore gives the
/// time written with an underscore: no digit and no letter of it is a
/// colon.
pub proof fn lemma_separator_replaced(time: ClockView)
    requires
        time.is_valid(),
    ensures
        replaced(clock_text(time, ':'), ':', '_') == clock_text(time, '_'),
{
    assert(replaced(clock_text(time, ':'), ':', '_') =~= clock_text(time, '_'));
}

/// The name of the file for `time` and `suffix`: the time of day with an
/// underscore between hour and minute, the suffix, and the extension
/// `.json`.
pub fn format_time_with_suffix(time: ClockTime, suffix: &str) -> (name: String)
    ensures
        name@ == file_name_text(time@, suffix@),
{
    let written = format_clock(time.hour(), time.minute(), CLOCK_PATTERN);
    proof {
        lemma_separator_replaced(time@);
    }
    let mut name = replace_char(written.as_str(), ':', '_');
    name.append(suffix);
    name.append(EXTENSION);
    name
}

/// The name of the snapshot file written at `time`, such as
/// `3_07pm_monitors.json`.
pub fn snapshot_file_name(time: ClockTime) -> (name: String)
    ensures
        name@ == file_name_text(time@, SNAPSHOT_SUFFIX@),
{
    format_time_with_suffix(time, SNAPSHOT_SUFFIX)
}

} // verus!
