//! The probe data model: what a probe declares, and what one execution of it
//! records.

use vstd::prelude::*;

verus! {

/// Calendar components of one instant in UTC, at one-second resolution.
///
/// The pipeline treats time as plain values: the wall clock is read once per
/// execution (see `http_probe`), and everything downstream is a pure function
/// of these components.
#[derive(Clone, Copy, Debug, PartialEq, Eq, Structural)]
pub struct UtcTimestamp {
    pub year: i32,
    pub month: u8,
    pub day: u8,
    pub hour: u8,
    pub minute: u8,
    pub second: u8,
}

/// The character standing for the decimal or hexadecimal digit `d`.
pub open spec fn digit_char(d: int) -> char {
    if d == 0 {
        '0'
    } else if d == 1 {
        '1'
    } else if d == 2 {
        '2'
    } else if d == 3 {
        '3'
    } else if d == 4 {
        '4'
    } else if d == 5 {
        '5'
    } else if d == 6 {
        '6'
    } else if d == 7 {
        '7'
    } else if d == 8 {
        '8'
    } else if d == 9 {
        '9'
    } else if d == 10 {
        'a'
    } else if d == 11 {
        'b'
    } else if d == 12 {
        'c'
    } else if d == 13 {
        'd'
    } else if d == 14 {
        'e'
    } else {
        'f'
    }
}

/// The character standing for the digit `d`, `0` through `f`.
pub fn digit_to_char(d: u8) -> (c: char)
    requires
        d < 16,
    ensures
        c == digit_char(d as int),
{
    if d == 0 {
        '0'
    } else if d == 1 {
        '1'
    } else if d == 2 {
        '2'
    } else if d == 3 {
        '3'
    } else if d == 4 {
        '4'
    } else if d == 5 {
        '5'
    } else if d == 6 {
        '6'
    } else if d == 7 {
        '7'
    } else if d == 8 {
        '8'
    } else if d == 9 {
        '9'
    } else if d == 10 {
        'a'
    } else if d == 11 {
        'b'
    } else if d == 12 {
        'c'
    } else if d == 13 {
        'd'
    } else if d == 14 {
        'e'
    } else {
        'f'
    }
}

/// Relies on `String::push` of std: appends the given character to the end
/// of the string.
#[verifier::external_body]
pub(crate) fn push_char(s: &mut String, c: char)
    ensures
        final(s)@ == old(s)@.push(c),
{
    s.push(c);
}

/// The RFC 3339 date-time text for `t`, `YYYY-MM-DDThh:mm:ssZ`.
pub open spec fn rfc3339_of(t: UtcTimestamp) -> Seq<char> {
    seq![
        digit_char(t.year as int / 1000 % 10),
        digit_char(t.year as int / 100 % 10),
        digit_char(t.year as int / 10 % 10),
        digit_char(t.year as int % 10),
        '-',
        digit_char(t.month as int / 10),
        digit_char(t.month as int % 10),
        '-',
        digit_char(t.day as int / 10),
        digit_char(t.day as int % 10),
        'T',
        digit_char(t.hour as int / 10),
        digit_char(t.hour as int % 10),
        ':',
        digit_char(t.minute as int / 10),
        digit_char(t.minute as int % 10),
        ':',
        digit_char(t.second as int / 10),
        digit_char(t.second as int % 10),
        'Z',
    ]
}

impl UtcTimestamp {
    /// The component ranges that a wall-clock reading guarantees; the year
    /// is whatever the clock says.
    pub open spec fn components_in_range(self) -> bool {
        &&& 1 <= self.month <= 12
        &&& 1 <= self.day <= 31
        &&& self.hour <= 23
        &&& self.minute <= 59
        &&& self.second <= 59
    }

    /// A timestamp that can be written as an RFC 3339 date-time with a
    /// four-digit year.
    pub open spec fn valid(self) -> bool {
        &&& 0 <= self.year <= 9999
        &&& self.components_in_range()
    }

    /// Lexicographic order on the components: `self` is no later than
    /// `other`.
    pub open spec fn spec_le(self, other: UtcTimestamp) -> bool {
        if self.year != other.year {
            self.year < other.year
        } else if self.month != other.month {
            self.month < other.month
        } else if self.day != other.day {
            self.day < other.day
        } else if self.hour != other.hour {
            self.hour < other.hour
        } else if self.minute != other.minute {
            self.minute < other.minute
        } else {
            self.second <= other.second
        }
    }

    /// True iff `self` is no later than `other`.
    pub fn le(&self, other: &UtcTimestamp) -> (r: bool)
        ensures
            r == self.spec_le(*other),
    {
        if self.year != other.year {
            self.year < other.year
        } else if self.month != other.month {
            self.month < other.month
        } else if self.day != other.day {
            self.day < other.day
        } else if self.hour != other.hour {
            self.hour < other.hour
        } else if self.minute != other.minute {
            self.minute < other.minute
        } else {
            self.second <= other.second
        }
    }

    /// Writes `self` as an RFC 3339 date-time, `YYYY-MM-DDThh:mm:ssZ`.
    pub fn to_rfc3339(&self) -> (r: String)
        requires
            self.valid(),
        ensures
            r@ == rfc3339_of(*self),
    {
        let mut out = String::new();
        let y = self.year;
        push_char(&mut out, digit_to_char((y / 1000 % 10) as u8));
        push_char(&mut out, digit_to_char((y / 100 % 10) as u8));
        push_char(&mut out, digit_to_char((y / 10 % 10) as u8));
        push_char(&mut out, digit_to_char((y % 10) as u8));
        push_char(&mut out, '-');
        push_char(&mut out, digit_to_char(self.month / 10));
        push_char(&mut out, digit_to_char(self.month % 10));
        push_char(&mut out, '-');
        push_char(&mut out, digit_to_char(self.day / 10));
        push_char(&mut out, digit_to_char(self.day % 10));
        push_char(&mut out, 'T');
        push_char(&mut out, digit_to_char(self.hour / 10));
        push_char(&mut out, digit_to_char(self.hour % 10));
        push_char(&mut out, ':');
        push_char(&mut out, digit_to_char(self.minute / 10));
        push_char(&mut out, digit_to_char(self.minute % 10));
        push_char(&mut out, ':');
        push_char(&mut out, digit_to_char(self.second / 10));
        push_char(&mut out, digit_to_char(self.second % 10));
        push_char(&mut out, 'Z');
        proof {
            assert(out@ =~= rfc3339_of(*self));
        }
        out
    }
}

/// Optional request customization carried by a probe.
#[derive(Clone, Debug)]
pub struct ProbeInputParameters {
    /// Raw request body, attached verbatim when present.
    pub body: Option<String>,
    /// Header entries in declaration order; repeated names are allowed and
    /// every entry is sent independently.
    pub headers: Option<Vec<(String, String)>>,
}

/// One declared success criterion. Its interpretation belongs to the
/// expectation validator outside this crate; the core only looks at whether
/// any expectations were declared at all.
#[derive(Clone, Debug)]
pub struct ProbeExpectation {
    /// Status code the response must carry, when declared.
    pub status: Option<u16>,
    /// Body text the response must carry, when declared.
    pub body: Option<String>,
}

/// One declared health check: a target endpoint plus optional request
/// customization and optional success criteria.
#[derive(Clone, Debug)]
pub struct Probe {
    /// Identifier used for correlation and status lines; not required to be
    /// unique.
    pub name: String,
    /// Target address in string form.
    pub url: String,
    /// Name of the HTTP verb; must be a valid method token or the run is
    /// aborted before any network I/O.
    pub http_method: String,
    /// Optional request customization.
    pub with: Option<ProbeInputParameters>,
    /// Declared success criteria; when absent, reachability alone counts as
    /// success.
    pub expectations: Option<Vec<ProbeExpectation>>,
}

/// Captured response metadata; reserved for a later extension and never
/// populated by the core today.
#[derive(Clone, Debug, PartialEq, Eq)]
pub struct ProbeResponse {
    pub status_code: u16,
    pub body: String,
}

/// Immutable record of one probe execution.
#[derive(Clone, Debug, PartialEq, Eq)]
pub struct ProbeResult {
    /// Whether the probe passed: reachability when no expectations were
    /// declared, the validator's verdict otherwise, and never on a
    /// transport failure.
    pub success: bool,
    /// Reserved for the captured response; the core leaves it empty.
    pub response: Option<ProbeResponse>,
    /// Wall-clock instant captured before the request was built, not when
    /// the execution finished.
    pub timestamp_started: UtcTimestamp,
}

} // verus!
