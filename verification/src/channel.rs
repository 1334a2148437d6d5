//! Trusted boundary to the crossbeam channels that carry frames to the
//! consumer and shutdown notifications to the generators.
//!
//! A channel is shared with other threads, so nothing can be promised
//! about what a send or a receive observes: every wrapper here states
//! only what holds of each possible outcome, and the generator logic in
//! [`crate::generator`] is verified for every value these wrappers can
//! return.

use vstd::prelude::*;

use crate::frame::Frame;

verus! {

#[verifier::external_type_specification]
#[verifier::external_body]
#[verifier::reject_recursive_types(T)]
pub struct ExSender<T>(crossbeam_channel::Sender<T>);

#[verifier::external_type_specification]
#[verifier::external_body]
#[verifier::reject_recursive_types(T)]
pub struct ExReceiver<T>(crossbeam_channel::Receiver<T>);

/// Relies on crossbeam_channel::unbounded: a fresh unbounded channel of
/// shutdown notifications; the two endpoints are paired.
#[verifier::external_body]
pub(crate) fn signal_channel() -> (crossbeam_channel::Sender<()>, crossbeam_channel::Receiver<()>) {
    crossbeam_channel::unbounded()
}

/// Relies on crossbeam_channel::Sender::send: queues the frame and
/// returns true while at least one receiver of the channel is alive;
/// returns false once every receiver is gone and the frame is dropped.
#[verifier::external_body]
pub(crate) fn send_frame(tx: &crossbeam_channel::Sender<Frame>, f: Frame) -> (ok: bool) {
    tx.send(f).is_ok()
}

/// Relies on crossbeam_channel::Sender::send: queues one shutdown
/// notification and returns true while at least one receiver of the
/// channel is alive; returns false once every receiver is gone.
#[verifier::external_body]
pub(crate) fn send_signal(tx: &crossbeam_channel::Sender<()>) -> (ok: bool) {
    tx.send(()).is_ok()
}

/// Relies on crossbeam_channel::Receiver::try_recv: without blocking,
/// returns true when a notification was pending (consuming it) or the
/// channel has closed, and false when the channel was merely empty. A
/// closed signal channel is treated as a shutdown, as a select over a
/// closed channel would fire its receive arm.
#[verifier::external_body]
pub(crate) fn shutdown_pending(rx: &crossbeam_channel::Receiver<()>) -> (observed: bool) {
    match rx.try_recv() {
        Ok(()) => true,
        Err(crossbeam_channel::TryRecvError::Disconnected) => true,
        Err(crossbeam_channel::TryRecvError::Empty) => false,
    }
}

/// Relies on crossbeam_channel::Receiver::recv_timeout: blocks for at
/// most `ms` milliseconds; returns true when a notification arrived in
/// time (consuming it) or the channel has closed, and false when the
/// timeout elapsed first.
#[verifier::external_body]
pub(crate) fn wait_for_shutdown(rx: &crossbeam_channel::Receiver<()>, ms: u64) -> (observed: bool) {
    match rx.recv_timeout(std::time::Duration::from_millis(ms)) {
        Ok(()) => true,
        Err(crossbeam_channel::RecvTimeoutError::Disconnected) => true,
        Err(crossbeam_channel::RecvTimeoutError::Timeout) => false,
    }
}

} // verus!
