//! One reading of the clock, as it is handed to the browser: the time that
//! cache entries are aged by, and the wall-clock stamp that log entries begin
//! with.

use vstd::prelude::*;

verus! {

/// How long a cached listing stays fresh, in milliseconds.
pub const FRESH_FOR_MILLIS: i64 = 300_000;

/// What the clock showed at one moment.
#[derive(Debug)]
pub struct Moment {
    /// Milliseconds since the Unix epoch.
    pub epoch_millis: i64,
    /// The local time of day, written `HH:MM:SS`.
    pub stamp: String,
}

/// The mathematical view of a `Moment`.
pub struct MomentView {
    pub epoch_millis: i64,
    pub stamp: Seq<char>,
}

impl View for Moment {
    type V = MomentView;

    open spec fn view(&self) -> MomentView {
        MomentView { epoch_millis: self.epoch_millis, stamp: self.stamp@ }
    }
}

/// Whether the character is a decimal digit.
pub open spec fn is_digit(c: char) -> bool {
    '0' <= c <= '9'
}

/// Two digits, a colon, two digits, a colon, two digits.
pub open spec fn is_clock_stamp(s: Seq<char>) -> bool {
    &&& s.len() == 8
    &&& is_digit(s[0])
    &&& is_digit(s[1])
    &&& s[2] == ':'
    &&& is_digit(s[3])
    &&& is_digit(s[4])
    &&& s[5] == ':'
    &&& is_digit(s[6])
    &&& is_digit(s[7])
}

/// Whether a listing captured at `captured` is still fresh at `now`: it is
/// less than five minutes old, and not from the future.
pub open spec fn is_fresh(captured: i64, now: i64) -> bool {
    captured <= now && now - captured < FRESH_FOR_MILLIS
}

/// Whether a listing captured at `captured` is still fresh at `now`.
pub fn fresh(captured: i64, now: i64) -> (r: bool)
    ensures
        r == is_fresh(captured, now),
{
    captured <= now && (now as i128) - (captured as i128) < (FRESH_FOR_MILLIS as i128)
}

/// Whether the character is a decimal digit.
pub fn digit(c: char) -> (r: bool)
    ensures
        r == is_digit(c),
{
    '0' <= c && c <= '9'
}

/// Whether the text is a clock stamp: two digits, a colon, two digits, a
/// colon, two digits.
pub fn clock_stamp(stamp: &str) -> (r: bool)
    ensures
        r == is_clock_stamp(stamp@),
{
    let v = crate::text::to_chars(stamp);
    v.len() == 8 && digit(v[0]) && digit(v[1]) && v[2] == ':' && digit(v[3]) && digit(v[4])
        && v[5] == ':' && digit(v[6]) && digit(v[7])
}

impl Moment {
    /// The moment with the time `epoch_millis` and the stamp `stamp`, if
    /// `stamp` is a clock stamp. The browser reads no clock itself: whoever
    /// drives it reads the clock and hands each reading in.
    pub fn new(epoch_millis: i64, stamp: String) -> (r: Option<Moment>)
        ensures
            match r {
                Some(m) => is_clock_stamp(stamp@) && m@ == (MomentView {
                    epoch_millis,
                    stamp: stamp@,
                }),
                None => !is_clock_stamp(stamp@),
            },
    {
        if clock_stamp(stamp.as_str()) {
            Some(Moment { epoch_millis, stamp })
        } else {
            None
        }
    }
}

} // verus!
