//! Sampler and relay step logic.
//!
//! The sampler loop and the relay loop live on their own threads in the
//! embedding program; what they decide at each turn is pure and stands here.
//! The sampler turns one measurement outcome into forward-or-skip; the relay
//! turns one polled reading into publish-or-idle, with the publish payload
//! already formatted.
use vstd::prelude::*;
use vstd::string::StringExecFns;
use crate::text::format_tenths;
use crate::text::tenths_text;

verus! {

/// One raw sensor measurement, both channels in tenths of a unit, as the
/// sensor bus hands them out.
#[derive(Clone, Copy, PartialEq, Eq, Structural, Debug)]
pub struct RawMeasurement {
    pub temperature: i16,
    pub humidity: u16,
}

/// A transient failure of one sensor measurement.
#[derive(Clone, Copy, PartialEq, Eq, Structural, Debug)]
pub enum SensorFault {
    /// The sensor bus did not answer in time.
    Timeout,
    /// The answer's checksum did not match.
    ChecksumMismatch,
    /// The bus itself failed.
    Bus,
}

/// A reading on its way from the sampler to the relay: temperature and
/// humidity in tenths of a unit.
#[derive(Clone, Copy, PartialEq, Eq, Structural, Debug)]
pub struct SensorReading {
    pub temperature_tenths: i16,
    pub humidity_tenths: u16,
}

/// What the sampler does with one measurement outcome.
#[derive(Clone, Copy, PartialEq, Eq, Structural, Debug)]
pub enum SamplerAction {
    /// Hand the reading to the relay.
    Forward(SensorReading),
    /// Log-and-continue turn: the loop runs on to its next cycle.
    Skip,
}

/// The reading a successful measurement becomes.
pub open spec fn reading_of(m: RawMeasurement) -> SensorReading {
    SensorReading { temperature_tenths: m.temperature, humidity_tenths: m.humidity }
}

/// One turn of the sampler loop: forward exactly the successful measurements,
/// absorb every transient failure. The loop never stops on a failure; a
/// failed turn only skips.
pub fn sampler_step(outcome: Result<RawMeasurement, SensorFault>) -> (a: SamplerAction)
    ensures
        match outcome {
            Ok(m) => a == SamplerAction::Forward(reading_of(m)),
            Err(_) => a == SamplerAction::Skip,
        },
{
    match outcome {
        Ok(m) => SamplerAction::Forward(
            SensorReading { temperature_tenths: m.temperature, humidity_tenths: m.humidity },
        ),
        Err(_) => SamplerAction::Skip,
    }
}

/// The text payload a reading is published as: both values bracketed and
/// comma-separated, one fractional digit each.
pub open spec fn payload_text(r: SensorReading) -> Seq<char> {
    seq!['['] + tenths_text(r.temperature_tenths as int) + seq![',', ' '] + tenths_text(
        r.humidity_tenths as int,
    ) + seq![']']
}

/// Format one reading as its publish payload.
pub fn format_payload(r: &SensorReading) -> (s: String)
    ensures
        s@ == payload_text(*r),
{
    let mut s = String::from_str("[");
    s.append(format_tenths(r.temperature_tenths as i32).as_str());
    s.append(", ");
    s.append(format_tenths(r.humidity_tenths as i32).as_str());
    s.append("]");
    proof {
        reveal_strlit("[");
        reveal_strlit(", ");
        reveal_strlit("]");
        assert(s@ =~= payload_text(*r));
    }
    s
}

/// What the relay does with one poll of the handoff slot.
pub enum RelayAction {
    /// Publish this payload now.
    Publish(String),
    /// Nothing waited: sleep briefly and poll again.
    Idle,
}

/// One turn of the relay loop: a polled reading becomes a publish of its
/// formatted payload; an empty poll becomes an idle turn.
pub fn relay_step(polled: Option<SensorReading>) -> (a: RelayAction)
    ensures
        match polled {
            Some(r) => a matches RelayAction::Publish(p) && p@ == payload_text(r),
            None => a matches RelayAction::Idle,
        },
{
    match polled {
        Some(r) => RelayAction::Publish(format_payload(&r)),
        None => RelayAction::Idle,
    }
}

} // verus!
