use vstd::prelude::*;
use crate::sampler::TelemetryRecord;

verus! {

/// The character of a decimal digit.
pub open spec fn digit_char(d: nat) -> char {
    (d + 48) as char
}

/// The decimal representation of `n`, without sign or leading zeros.
pub open spec fn decimal(n: nat) -> Seq<char>
    decreases n,
{
    if n < 10 {
        seq![digit_char(n)]
    } else {
        decimal(n / 10).push(digit_char(n % 10))
    }
}

/// The wire form of a record: a JSON object with the two integer fields
/// `total_pulses` and `time_ms`, and nothing else.
pub open spec fn telemetry_json(r: TelemetryRecord) -> Seq<char> {
    "{\"total_pulses\":"@ + decimal(r.pulse_delta as nat) + ",\"time_ms\":"@ + decimal(
        r.time_delta as nat,
    ) + "}"@
}

/// Relies on serde_json::to_string on a `u64`: it writes the number's
/// decimal digits (through itoa), and writing into a `Vec` cannot fail.
#[verifier::external_body]
fn json_number(n: u64) -> (r: String)
    ensures
        r@ == decimal(n as nat),
{
    match serde_json::to_string(&n) {
        Ok(s) => s,
        Err(_) => String::new(),
    }
}

impl TelemetryRecord {
    /// The JSON payload to publish for this record.
    pub fn to_json(&self) -> (r: String)
        ensures
            r@ == telemetry_json(*self),
    {
        let mut out = String::from_str("{\"total_pulses\":");
        let pulses = json_number(self.pulse_delta as u64);
        out.append(pulses.as_str());
        out.append(",\"time_ms\":");
        let time = json_number(self.time_delta);
        out.append(time.as_str());
        out.append("}");
        out
    }
}

} // verus!
