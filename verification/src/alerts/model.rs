//! The alert payload: the data contract of the webhook notification sent
//! when a probe fails, together with its serialized JSON form.
//!
//! The encoder is part of the contract: field names are fixed, the failure
//! instant is written as an RFC 3339 date-time, and an absent trace id is
//! omitted from the output entirely rather than written as null.

use crate::probe::{digit_char, digit_to_char, push_char, rfc3339_of, UtcTimestamp};
use vstd::prelude::*;

verus! {

/// The JSON text standing for one character of a string value: the
/// two-character escapes of quote, backslash and the common control
/// characters, `\u00XX` for the remaining control characters, and the
/// character itself otherwise.
pub open spec fn json_escape_char(c: char) -> Seq<char> {
    if c == '"' {
        "\\\""@
    } else if c == '\\' {
        "\\\\"@
    } else if c == '\n' {
        "\\n"@
    } else if c == '\r' {
        "\\r"@
    } else if c == '\t' {
        "\\t"@
    } else if (c as u32) < 32 {
        "\\u00"@ + seq![digit_char((c as u32) as int / 16), digit_char((c as u32) as int % 16)]
    } else {
        seq![c]
    }
}

/// The JSON text standing for the characters of a string value, in order.
pub open spec fn json_escape(s: Seq<char>) -> Seq<char>
    decreases s.len(),
{
    if s.len() == 0 {
        Seq::empty()
    } else {
        json_escape(s.drop_last()) + json_escape_char(s.last())
    }
}

/// The JSON string literal for the text `s`: its escaped characters between
/// double quotes.
pub open spec fn json_string(s: Seq<char>) -> Seq<char> {
    "\""@ + json_escape(s) + "\""@
}

/// Appends the escaped characters of `s` to `out`.
fn append_json_escaped(out: &mut String, s: &str)
    ensures
        final(out)@ == old(out)@ + json_escape(s@),
{
    let len = s.unicode_len();
    let mut i: usize = 0;
    proof {
        assert(out@ + json_escape(s@.take(0)) =~= out@);
    }
    while i < len
        invariant
            len == s@.len(),
            i <= len,
            out@ == old(out)@ + json_escape(s@.take(i as int)),
        decreases len - i,
    {
        let c = s.get_char(i);
        if c == '"' {
            out.append("\\\"");
        } else if c == '\\' {
            out.append("\\\\");
        } else if c == '\n' {
            out.append("\\n");
        } else if c == '\r' {
            out.append("\\r");
        } else if c == '\t' {
            out.append("\\t");
        } else if (c as u32) < 32 {
            let v = c as u32;
            out.append("\\u00");
            push_char(out, digit_to_char((v / 16) as u8));
            push_char(out, digit_to_char((v % 16) as u8));
        } else {
            push_char(out, c);
        }
        proof {
            assert(s@.take(i + 1).drop_last() =~= s@.take(i as int));
            assert(s@.take(i + 1).last() == s@[i as int]);
            assert(out@ =~= old(out)@ + json_escape(s@.take(i + 1)));
        }
        i += 1;
    }
    proof {
        assert(s@.take(len as int) =~= s@);
    }
}

/// Appends the JSON string literal for `s` to `out`.
fn append_json_string(out: &mut String, s: &str)
    ensures
        final(out)@ == old(out)@ + json_string(s@),
{
    out.append("\"");
    append_json_escaped(out, s);
    out.append("\"");
    proof {
        assert(out@ =~= old(out)@ + json_string(s@));
    }
}

/// The message delivered to the alerting channel when a probe fails.
#[derive(Clone, Debug, PartialEq, Eq)]
pub struct WebhookNotification {
    /// Human-readable description of the failure.
    pub message: String,
    /// Name of the probe that failed, for correlation.
    pub probe_name: String,
    /// Instant of the failure, in UTC.
    pub failure_timestamp: UtcTimestamp,
    /// Correlation id; carried only when one exists, and then serialized,
    /// otherwise left out of the payload altogether.
    pub trace_id: Option<String>,
}

impl WebhookNotification {
    /// The serialized payload: a JSON object with the fixed field names
    /// `message`, `probe_name`, `failure_timestamp` (an RFC 3339 date-time)
    /// and, only when a trace id is present, `trace_id`.
    pub open spec fn json_view(self) -> Seq<char> {
        "{\"message\":"@ + json_string(self.message@) + ",\"probe_name\":"@ + json_string(
            self.probe_name@,
        ) + ",\"failure_timestamp\":\""@ + rfc3339_of(self.failure_timestamp) + "\""@ + (match self
            .trace_id {
            Some(trace) => ",\"trace_id\":"@ + json_string(trace@),
            None => Seq::<char>::empty(),
        }) + "}"@
    }

    /// Law: when no trace id is present, the payload is exactly the object
    /// of the three other fields — the `trace_id` key is omitted entirely,
    /// not written as null.
    pub proof fn lemma_absent_trace_id_is_omitted(self)
        requires
            self.trace_id is None,
        ensures
            self.json_view() == "{\"message\":"@ + json_string(self.message@)
                + ",\"probe_name\":"@ + json_string(self.probe_name@)
                + ",\"failure_timestamp\":\""@ + rfc3339_of(self.failure_timestamp) + "\"}"@,
    {
        assert(self.json_view() =~= "{\"message\":"@ + json_string(self.message@)
            + ",\"probe_name\":"@ + json_string(self.probe_name@) + ",\"failure_timestamp\":\""@
            + rfc3339_of(self.failure_timestamp) + "\"}"@) by {
            reveal_strlit("\"");
            reveal_strlit("}");
            reveal_strlit("\"}");
        }
    }

    /// Serializes the notification to its JSON payload.
    pub fn to_json(&self) -> (r: String)
        requires
            self.failure_timestamp.valid(),
        ensures
            r@ == self.json_view(),
    {
        let mut out = String::new();
        out.append("{\"message\":");
        append_json_string(&mut out, self.message.as_str());
        out.append(",\"probe_name\":");
        append_json_string(&mut out, self.probe_name.as_str());
        out.append(",\"failure_timestamp\":\"");
        let stamp = self.failure_timestamp.to_rfc3339();
        out.append(stamp.as_str());
        out.append("\"");
        if let Some(trace) = &self.trace_id {
            out.append(",\"trace_id\":");
            append_json_string(&mut out, trace.as_str());
        }
        out.append("}");
        proof {
            assert(out@ =~= self.json_view());
        }
        out
    }
}

} // verus!
