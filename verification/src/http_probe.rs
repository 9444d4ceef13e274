//! One probe execution: building the outbound request from a probe
//! definition, and classifying what came back into a [`ProbeResult`].
//!
//! Network dispatch itself is asynchronous I/O and stays outside the crate;
//! the caller performs it and reports what happened as a [`ProbeOutcome`].

use crate::probe::{Probe, ProbeResult, UtcTimestamp};
use chrono::{Datelike, Timelike};
use vstd::prelude::*;

verus! {

/// Upper bound, in seconds, on one dispatch round trip (connect through
/// response); expiry counts as a transport error.
pub const PROBE_TIMEOUT_SECONDS: u64 = 10;

/// Errors that abort a probe run. Both mark the probe's configuration as
/// invalid: no [`ProbeResult`] is produced, unlike a transport failure,
/// which yields a failed result.
#[derive(Clone, Copy, Debug, PartialEq, Eq, Structural)]
pub enum ProbeError {
    /// The probe's `http_method` is not a valid HTTP method token.
    MethodParse,
    /// The declared expectations could not be interpreted by the validator.
    ExpectationInvalid,
}

/// A character allowed in an HTTP method: the `tchar` set of RFC 9110,
/// section 9.1.
pub open spec fn is_method_char(c: char) -> bool {
    ||| ('0' as u32) <= (c as u32) <= ('9' as u32)
    ||| ('A' as u32) <= (c as u32) <= ('Z' as u32)
    ||| ('a' as u32) <= (c as u32) <= ('z' as u32)
    ||| c == '!'
    ||| c == '#'
    ||| c == '$'
    ||| c == '%'
    ||| c == '&'
    ||| c == '\''
    ||| c == '*'
    ||| c == '+'
    ||| c == '-'
    ||| c == '.'
    ||| c == '^'
    ||| c == '_'
    ||| c == '`'
    ||| c == '|'
    ||| c == '~'
}

/// A valid HTTP method: one or more `tchar` characters (RFC 9110 `token`).
pub open spec fn is_valid_method(s: Seq<char>) -> bool {
    s.len() > 0 && forall|i: int| 0 <= i < s.len() ==> is_method_char(#[trigger] s[i])
}

/// True iff `c` may appear in an HTTP method token.
pub fn method_char(c: char) -> (r: bool)
    ensures
        r == is_method_char(c),
{
    let v = c as u32;
    (('0' as u32) <= v && v <= ('9' as u32)) || (('A' as u32) <= v && v <= ('Z' as u32)) || (('a'
        as u32) <= v && v <= ('z' as u32)) || c == '!' || c == '#' || c == '$' || c == '%' || c
        == '&' || c == '\'' || c == '*' || c == '+' || c == '-' || c == '.' || c == '^' || c == '_'
        || c == '`' || c == '|' || c == '~'
}

/// True iff `s` is a valid HTTP method token.
pub fn method_token_valid(s: &str) -> (r: bool)
    ensures
        r == is_valid_method(s@),
{
    let len = s.unicode_len();
    if len == 0 {
        return false;
    }
    let mut i: usize = 0;
    while i < len
        invariant
            len == s@.len(),
            0 < len,
            i <= len,
            forall|j: int| 0 <= j < i ==> is_method_char(#[trigger] s@[j]),
        decreases len - i,
    {
        let c = s.get_char(i);
        if !method_char(c) {
            return false;
        }
        i += 1;
    }
    true
}

/// A fully-formed outbound request, ready for dispatch: everything the
/// transport needs, as plain values.
#[derive(Clone, Debug, PartialEq, Eq)]
pub struct RequestDescriptor {
    /// The HTTP verb, already checked to be a valid method token.
    pub method: String,
    /// Target address in string form.
    pub url: String,
    /// Request body, attached verbatim when present.
    pub body: Option<String>,
    /// Header entries in declaration order; an entry per occurrence, so
    /// repeated names are sent repeatedly.
    pub headers: Vec<(String, String)>,
}

/// The body the request must carry for `probe`: the declared one, if any.
pub open spec fn probe_body_view(probe: Probe) -> Option<Seq<char>> {
    match probe.with {
        Some(params) => params.body.deep_view(),
        None => None,
    }
}

/// The header entries the request must carry for `probe`, in declaration
/// order.
pub open spec fn probe_headers_view(probe: Probe) -> Seq<(Seq<char>, Seq<char>)> {
    match probe.with {
        Some(params) => match params.headers {
            Some(entries) => entries.deep_view(),
            None => Seq::empty(),
        },
        None => Seq::empty(),
    }
}

impl RequestDescriptor {
    /// The descriptor carries exactly what `probe` declares: its verb, its
    /// URL, its body verbatim, and every header entry in order.
    pub open spec fn matches_probe(self, probe: Probe) -> bool {
        &&& self.method@ == probe.http_method@
        &&& self.url@ == probe.url@
        &&& self.body.deep_view() == probe_body_view(probe)
        &&& self.headers.deep_view() == probe_headers_view(probe)
    }
}

/// Turns a probe definition into a request descriptor.
///
/// Fails, before any network I/O could happen, iff the probe's verb is not
/// a valid HTTP method token; otherwise the descriptor reproduces the
/// probe's declarations exactly.
pub fn build_request(probe: &Probe) -> (r: Result<RequestDescriptor, ProbeError>)
    ensures
        r is Ok <==> is_valid_method(probe.http_method@),
        r matches Ok(descriptor) ==> descriptor.matches_probe(*probe),
        r matches Err(e) ==> e == ProbeError::MethodParse,
{
    if !method_token_valid(probe.http_method.as_str()) {
        return Err(ProbeError::MethodParse);
    }
    let mut body: Option<String> = None;
    let mut headers: Vec<(String, String)> = Vec::new();
    if let Some(params) = &probe.with {
        if let Some(declared) = &params.body {
            body = Some(declared.clone());
        }
        if let Some(entries) = &params.headers {
            let mut i: usize = 0;
            while i < entries.len()
                invariant
                    i <= entries.len(),
                    headers@.len() == i,
                    forall|j: int|
                        0 <= j < i ==> headers@[j].0@ == entries@[j].0@ && headers@[j].1@
                            == entries@[j].1@,
                decreases entries.len() - i,
            {
                let entry = &entries[i];
                let cloned = (entry.0.clone(), entry.1.clone());
                proof {
                    assert(cloned.0@ == entries@[i as int].0@);
                    assert(cloned.1@ == entries@[i as int].1@);
                }
                headers.push(cloned);
                i += 1;
            }
            proof {
                assert(headers.deep_view() =~= entries.deep_view());
            }
        }
    }
    proof {
        assert(headers.deep_view() =~= probe_headers_view(*probe));
        assert(body.deep_view() == probe_body_view(*probe));
    }
    Ok(RequestDescriptor { method: probe.http_method.clone(), url: probe.url.clone(), body, headers })
}

/// What one dispatch of the request came to, as the caller reports it back.
#[derive(Clone, Copy, Debug, PartialEq, Eq, Structural)]
pub enum ProbeOutcome {
    /// The dispatch failed or timed out before a response arrived.
    TransportError,
    /// A response arrived and the probe declared no expectations.
    ResponseWithoutExpectations,
    /// A response arrived, the probe declared expectations, and the
    /// validator returned this verdict.
    ValidatorVerdict(bool),
}

/// Whether an outcome counts as a passed probe: reachability alone when no
/// expectations were declared, the validator's verdict otherwise, and never
/// a transport failure.
pub open spec fn outcome_success(outcome: ProbeOutcome) -> bool {
    match outcome {
        ProbeOutcome::TransportError => false,
        ProbeOutcome::ResponseWithoutExpectations => true,
        ProbeOutcome::ValidatorVerdict(verdict) => verdict,
    }
}

/// An outcome the dispatcher can truthfully report for `probe`: validation
/// happens exactly when expectations are declared.
pub open spec fn outcome_fits_probe(probe: Probe, outcome: ProbeOutcome) -> bool {
    match outcome {
        ProbeOutcome::TransportError => true,
        ProbeOutcome::ResponseWithoutExpectations => probe.expectations is None,
        ProbeOutcome::ValidatorVerdict(_) => probe.expectations is Some,
    }
}

/// Classifies one dispatch outcome into the probe's result record.
///
/// The result always carries the start instant handed in and an empty
/// response field; it is successful exactly when the outcome counts as a
/// pass, so a transport failure or timeout never is, whatever the probe
/// declared.
pub fn classify_outcome(probe: &Probe, outcome: &ProbeOutcome, timestamp_started: UtcTimestamp) -> (r:
    ProbeResult)
    requires
        outcome_fits_probe(*probe, *outcome),
    ensures
        r.success == outcome_success(*outcome),
        r.response is None,
        r.timestamp_started == timestamp_started,
{
    let success = match outcome {
        ProbeOutcome::TransportError => false,
        ProbeOutcome::ResponseWithoutExpectations => true,
        ProbeOutcome::ValidatorVerdict(verdict) => *verdict,
    };
    ProbeResult { success, response: None, timestamp_started }
}

/// Law: for a probe with no expectations, any response at all counts as a
/// pass, whatever its status code.
pub proof fn lemma_response_without_expectations_succeeds(probe: Probe)
    requires
        probe.expectations is None,
    ensures
        outcome_fits_probe(probe, ProbeOutcome::ResponseWithoutExpectations),
        outcome_success(ProbeOutcome::ResponseWithoutExpectations),
{
}

/// Law: for a probe with expectations, the validator's verdict passes
/// through to the result's success exactly.
pub proof fn lemma_validator_verdict_passes_through(probe: Probe, verdict: bool)
    requires
        probe.expectations is Some,
    ensures
        outcome_fits_probe(probe, ProbeOutcome::ValidatorVerdict(verdict)),
        outcome_success(ProbeOutcome::ValidatorVerdict(verdict)) == verdict,
{
}

/// Law: a transport failure or timeout never counts as a pass, whatever
/// the probe declared.
pub proof fn lemma_transport_error_never_succeeds(probe: Probe)
    ensures
        outcome_fits_probe(probe, ProbeOutcome::TransportError),
        !outcome_success(ProbeOutcome::TransportError),
{
}

/// The status line surfaced for `outcome`, keyed on how the probe fared.
pub open spec fn status_line_of(name: Seq<char>, outcome: ProbeOutcome) -> Seq<char> {
    match outcome {
        ProbeOutcome::TransportError => "Error whilst executing probe "@ + name + "."@,
        ProbeOutcome::ResponseWithoutExpectations => "Successfully probed "@ + name
            + ", no expectation so success is true."@,
        ProbeOutcome::ValidatorVerdict(verdict) => if verdict {
            "Successful response for "@ + name + ", as expected."@
        } else {
            "Successful response for "@ + name + ", not as expected!"@
        },
    }
}

/// Renders the human-readable status line for one outcome of the probe
/// named `name`.
pub fn status_line(name: &str, outcome: &ProbeOutcome) -> (r: String)
    ensures
        r@ == status_line_of(name@, *outcome),
{
    let mut out = String::new();
    match outcome {
        ProbeOutcome::TransportError => {
            out.append("Error whilst executing probe ");
            out.append(name);
            out.append(".");
        },
        ProbeOutcome::ResponseWithoutExpectations => {
            out.append("Successfully probed ");
            out.append(name);
            out.append(", no expectation so success is true.");
        },
        ProbeOutcome::ValidatorVerdict(verdict) => {
            if *verdict {
                out.append("Successful response for ");
                out.append(name);
                out.append(", as expected.");
            } else {
                out.append("Successful response for ");
                out.append(name);
                out.append(", not as expected!");
            }
        },
    }
    proof {
        assert(out@ =~= status_line_of(name@, *outcome));
    }
    out
}

/// Relies on chrono's `Utc::now` for the wall clock, and on its `Datelike`
/// and `Timelike` accessors for the components; the ensures repeats their
/// documented ranges (month 1-12, day 1-31, hour 0-23, minute 0-59,
/// second 0-59).
#[verifier::external_body]
fn now_utc() -> (t: UtcTimestamp)
    ensures
        t.components_in_range(),
{
    let n = chrono::Utc::now();
    UtcTimestamp {
        year: n.year(),
        month: n.month() as u8,
        day: n.day() as u8,
        hour: n.hour() as u8,
        minute: n.minute() as u8,
        second: n.second() as u8,
    }
}

/// The steps of a probe run that precede network dispatch: capture the
/// start instant from the wall clock, then build the request descriptor.
///
/// Fails, with no result record produced, iff the probe's verb is not a
/// valid method token; the dispatcher then sends the descriptor and hands
/// what happened to [`classify_outcome`] together with the instant
/// returned here.
pub fn prepare_probe(probe: &Probe) -> (r: Result<(RequestDescriptor, UtcTimestamp), ProbeError>)
    ensures
        r is Ok <==> is_valid_method(probe.http_method@),
        r matches Ok(prepared) ==> prepared.0.matches_probe(*probe)
            && prepared.1.components_in_range(),
        r matches Err(e) ==> e == ProbeError::MethodParse,
{
    let timestamp_started = now_utc();
    match build_request(probe) {
        Ok(descriptor) => Ok((descriptor, timestamp_started)),
        Err(e) => Err(e),
    }
}

} // verus!
