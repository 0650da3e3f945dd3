use chrono::{Datelike, Timelike};
use vstd::prelude::*;

verus! {

/// The zone-naive pattern that date-times are read with: date, `T`, time,
/// and optionally a dot with three fraction digits.
pub const LOCAL_DATETIME_PATTERN: &'static str = "%Y-%m-%dT%H:%M:%S%.3f";

/// The calendar and clock readings of a zone-naive date-time.
#[derive(Clone, Copy, PartialEq, Eq, Structural, Debug)]
pub struct DateTimeParts {
    pub year: i32,
    pub month: u32,
    pub day: u32,
    pub hour: u32,
    pub minute: u32,
    pub second: u32,
    pub nanosecond: u32,
}

/// What chrono reads from `text` with the strftime-style `pattern`, if it
/// accepts the text.
pub uninterp spec fn parsed_local_datetime(text: Seq<char>, pattern: Seq<char>) -> Option<
    DateTimeParts,
>;

/// Relies on chrono's `NaiveDateTime::parse_from_str`, which either rejects the
/// text or yields a date-time that depends on the text and pattern alone, and
/// on its `Datelike`/`Timelike` accessors to read that date-time out.
#[verifier::external_body]
fn parse_local_datetime(text: &str, pattern: &str) -> (r: Option<DateTimeParts>)
    ensures
        r == parsed_local_datetime(text@, pattern@),
{
    match chrono::NaiveDateTime::parse_from_str(text, pattern) {
        Ok(t) => Some(DateTimeParts {
            year: t.year(), month: t.month(), day: t.day(),
            hour: t.hour(), minute: t.minute(), second: t.second(), nanosecond: t.nanosecond(),
        }),
        Err(_) => None,
    }
}

/// The trailing zone marker that front ends append to local date-times.
pub open spec fn ends_with_zone_marker(s: Seq<char>) -> bool {
    s.len() > 0 && s.last() == 'Z'
}

/// `s` without one trailing zone marker, if it has one.
pub open spec fn strip_zone_marker(s: Seq<char>) -> Seq<char> {
    if ends_with_zone_marker(s) {
        s.drop_last()
    } else {
        s
    }
}

/// A date-time as text and as calendar readings.
pub struct DateTimeModel {
    pub text: Seq<char>,
    pub parts: DateTimeParts,
}

/// Why a date-time text was refused.
#[derive(Clone, Copy, PartialEq, Eq, Structural, Debug)]
pub enum DateTimeError {
    /// The text does not match the local date-time pattern.
    Unparsable,
}

/// The outcome of reading a nullable date-time: an empty text is no value; a
/// trailing zone marker is dropped once; what remains must be a non-empty text
/// without a zone marker that matches the pattern.
pub open spec fn nullable_datetime_outcome(s: Seq<char>) -> Result<
    Option<DateTimeModel>,
    DateTimeError,
> {
    if s.len() == 0 {
        Ok(None)
    } else {
        let t = strip_zone_marker(s);
        if t.len() == 0 || ends_with_zone_marker(t) {
            Err(DateTimeError::Unparsable)
        } else {
            match parsed_local_datetime(t, LOCAL_DATETIME_PATTERN@) {
                Some(parts) => Ok(Some(DateTimeModel { text: t, parts })),
                None => Err(DateTimeError::Unparsable),
            }
        }
    }
}

/// A zone-naive date-time. It keeps the text it was read from, so that writing
/// it out and reading it back gives the same value.
#[derive(Debug)]
pub struct LocalDateTime {
    text: String,
    parts: DateTimeParts,
}

impl View for LocalDateTime {
    type V = DateTimeModel;

    closed spec fn view(&self) -> DateTimeModel {
        DateTimeModel { text: self.text@, parts: self.parts }
    }
}

impl Clone for LocalDateTime {
    fn clone(&self) -> (r: Self)
        ensures
            r@ == self@,
            r.wf() == self.wf(),
    {
        proof {
            use_type_invariant(self);
        }
        LocalDateTime { text: self.text.clone(), parts: self.parts }
    }
}

impl PartialEq for LocalDateTime {
    fn eq(&self, other: &Self) -> (r: bool)
        ensures
            r == (self@ == other@),
    {
        proof {
            assert(self.parts == other.parts ==> (self@ == other@ <==> self.text@ == other.text@));
        }
        self.parts == other.parts && self.text == other.text
    }
}

impl vstd::std_specs::cmp::PartialEqSpecImpl for LocalDateTime {
    open spec fn obeys_eq_spec() -> bool {
        true
    }

    open spec fn eq_spec(&self, other: &LocalDateTime) -> bool {
        self@ == other@
    }
}

impl LocalDateTime {
    /// Well-formed: the readings are what the pattern reads from the text, and
    /// the text is not empty and carries no zone marker. Every date-time value
    /// is.
    #[verifier::type_invariant]
    pub open spec fn wf(&self) -> bool {
        self@.wf()
    }

    /// The text the date-time was read from, without its zone marker.
    pub fn text(&self) -> (r: &str)
        ensures
            r@ == self@.text,
    {
        self.text.as_str()
    }

    /// The calendar and clock readings.
    pub fn parts(&self) -> (r: DateTimeParts)
        ensures
            r == self@.parts,
    {
        self.parts
    }

    /// Reads a nullable date-time: an empty text is no value; otherwise one
    /// trailing `Z` is dropped and the rest must match
    /// `LOCAL_DATETIME_PATTERN`.
    pub fn parse_nullable(s: &str) -> (r: Result<Option<LocalDateTime>, DateTimeError>)
        ensures
            nullable_datetime_outcome(s@) == match r {
                Ok(None) => Ok(None),
                Ok(Some(d)) => Ok(Some(d@)),
                Err(e) => Err(e),
            },
            r matches Ok(Some(d)) ==> d.wf(),
    {
        let n = s.unicode_len();
        if n == 0 {
            return Ok(None);
        }
        let t: &str = if s.get_char(n - 1) == 'Z' {
            s.substring_char(0, n - 1)
        } else {
            s
        };
        proof {
            assert(t@ =~= strip_zone_marker(s@));
        }
        let m = t.unicode_len();
        if m == 0 || t.get_char(m - 1) == 'Z' {
            return Err(DateTimeError::Unparsable);
        }
        match parse_local_datetime(t, LOCAL_DATETIME_PATTERN) {
            Some(parts) => {
                let d = LocalDateTime { text: t.to_string(), parts };
                Ok(Some(d))
            },
            None => Err(DateTimeError::Unparsable),
        }
    }
}

impl DateTimeModel {
    /// The readings are what the pattern reads from the text, and the text is
    /// not empty and carries no zone marker.
    pub open spec fn wf(self) -> bool {
        &&& self.text.len() > 0
        &&& parsed_local_datetime(self.text, LOCAL_DATETIME_PATTERN@) == Some(self.parts)
        &&& !ends_with_zone_marker(self.text)
    }
}

} // verus!
