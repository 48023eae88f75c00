//! Single-slot handoff between the sampler and the relay.
//!
//! A bounded queue of capacity one carries readings from the sampler thread
//! to the relay. The producer never blocks: offering a reading while the slot
//! is still full drops the newest reading (the offer is rejected and the
//! reading handed back to the caller's turn), so a slow consumer sees the
//! oldest undrained reading and loses later ones silently.
use vstd::prelude::*;
use crate::telemetry::SensorReading;

verus! {

#[verifier::external_type_specification]
#[verifier::external_body]
#[verifier::reject_recursive_types(T)]
pub struct ExSender<T>(crossbeam_channel::Sender<T>);

#[verifier::external_type_specification]
#[verifier::external_body]
#[verifier::reject_recursive_types(T)]
pub struct ExReceiver<T>(crossbeam_channel::Receiver<T>);

/// Relies on crossbeam_channel::bounded with capacity one: a single-slot
/// queue whose two endpoints come back as a pair.
#[verifier::external_body]
fn bounded_one() -> (r: (
    crossbeam_channel::Sender<SensorReading>,
    crossbeam_channel::Receiver<SensorReading>,
)) {
    crossbeam_channel::bounded(1)
}

/// Relies on crossbeam_channel::Sender::try_send: it never blocks, and on a
/// full or disconnected queue the message comes back inside the error.
#[verifier::external_body]
fn try_send_reading(
    tx: &crossbeam_channel::Sender<SensorReading>,
    reading: SensorReading,
) -> (r: Result<(), SensorReading>)
    ensures
        r matches Err(m) ==> m == reading,
{
    tx.try_send(reading).map_err(|e| e.into_inner())
}

/// Relies on crossbeam_channel::Receiver::try_recv: it never blocks, and an
/// empty or disconnected queue yields no reading.
#[verifier::external_body]
fn try_recv_reading(rx: &crossbeam_channel::Receiver<SensorReading>) -> (r: Option<SensorReading>) {
    rx.try_recv().ok()
}

/// The sampler's end of the handoff slot.
pub struct HandoffSender {
    tx: crossbeam_channel::Sender<SensorReading>,
}

/// The relay's end of the handoff slot.
pub struct HandoffReceiver {
    rx: crossbeam_channel::Receiver<SensorReading>,
}

/// Make one handoff slot: a sender for the sampler thread and a receiver for
/// the relay.
pub fn handoff_channel() -> (HandoffSender, HandoffReceiver) {
    let (tx, rx) = bounded_one();
    (HandoffSender { tx }, HandoffReceiver { rx })
}

impl HandoffSender {
    /// Offer one reading without ever blocking. `true` means the slot took
    /// it; `false` means the slot was still full (or the receiver gone) and
    /// this newest reading is dropped, the documented back-pressure policy.
    pub fn offer(&self, reading: SensorReading) -> (accepted: bool) {
        match try_send_reading(&self.tx, reading) {
            Ok(()) => true,
            Err(_) => false,
        }
    }
}

impl HandoffReceiver {
    /// Drain the slot without ever blocking: the waiting reading, if any.
    pub fn poll(&self) -> (r: Option<SensorReading>) {
        try_recv_reading(&self.rx)
    }
}

} // verus!
