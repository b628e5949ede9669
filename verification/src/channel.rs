//! Trusted boundary around the outside primitives the engine is built on:
//! flume's channels, used as one-shot completion notifiers and as the
//! completer's shutdown signal, and the monotonic clock.

use vstd::prelude::*;

verus! {

/// Declares `std::time::Instant`, the issue time a registry entry carries.
/// The value is opaque: nothing in the engine's logic reads it.
#[verifier::external_type_specification]
#[verifier::external_body]
pub struct ExInstant(std::time::Instant);

/// Declares flume's sending handle. A registry entry owns the send side of
/// its completion channel; the value is opaque to the engine's logic.
#[verifier::external_type_specification]
#[verifier::external_body]
#[verifier::reject_recursive_types(T)]
pub struct ExSender<T>(flume::Sender<T>);

/// Declares flume's receiving handle, the end a pending request waits on.
#[verifier::external_type_specification]
#[verifier::external_body]
#[verifier::reject_recursive_types(T)]
pub struct ExReceiver<T>(flume::Receiver<T>);

/// What one wait on the completer's shutdown channel reported.
pub enum ShutdownPoll {
    /// The wait interval elapsed with no signal: run a completion cycle.
    TimedOut,
    /// A shutdown signal arrived.
    Signalled,
    /// The signalling side is gone (the client was dropped).
    Disconnected,
}

/// Relies on `std::time::Instant::now`: reads the monotonic clock. Nothing is
/// promised of the value returned.
#[verifier::external_body]
pub(crate) fn now_instant() -> std::time::Instant {
    std::time::Instant::now()
}

/// Relies on `flume::bounded` with capacity 1: returns the two endpoints of a
/// fresh single-slot channel, paired with each other and with no other
/// channel. A value sent on the sender is received by this receiver alone.
#[verifier::external_body]
pub(crate) fn single_slot_channel<T>() -> (flume::Sender<T>, flume::Receiver<T>) {
    flume::bounded(1)
}

/// Relies on `flume::Sender::try_send`: places `value` in the channel's slot
/// if it is free and a receiver is still attached, and never blocks. On the
/// engine's one-shot channels the slot of a live channel is always free.
#[verifier::external_body]
pub(crate) fn send_value(tx: &flume::Sender<u16>, value: u16) {
    let _ = tx.try_send(value);
}

/// Relies on `flume::Receiver::recv`: blocks until a value arrives (`Some`)
/// or every sender is dropped without one having been sent (`None`). With no
/// completer running and the send side alive it does not return.
#[verifier::external_body]
pub(crate) fn recv_value(rx: flume::Receiver<u16>) -> Option<u16> {
    rx.recv().ok()
}

/// Relies on `flume::Receiver::recv_timeout`: waits up to `millis`
/// milliseconds for a shutdown signal, and tells the three outcomes apart.
#[verifier::external_body]
pub(crate) fn poll_shutdown(rx: &flume::Receiver<()>, millis: u64) -> ShutdownPoll {
    match rx.recv_timeout(core::time::Duration::from_millis(millis)) {
        Ok(()) => ShutdownPoll::Signalled,
        Err(flume::RecvTimeoutError::Timeout) => ShutdownPoll::TimedOut,
        Err(flume::RecvTimeoutError::Disconnected) => ShutdownPoll::Disconnected,
    }
}

} // verus!
