//! The interrupt adapter: installs the process-wide interrupt handler
//! once and hands back the receive endpoint that will carry the
//! shutdown notifications.

use vstd::prelude::*;

use crate::channel::send_signal;
use crate::channel::signal_channel;

verus! {

/// Number of redundant notifications sent on each interrupt, so that
/// several independent consumers racing on the same channel each
/// observe at least one.
pub const SHUTDOWN_NOTIFICATIONS: u8 = 3;

/// Why installing the interrupt handler failed.
#[derive(Clone, Copy, PartialEq, Eq, Structural, Debug)]
pub enum SignalError {
    /// A process-wide handler is already installed; installation happens
    /// at most once per process and is never silently replaced.
    AlreadyInstalled,
    /// The interrupt signal is not available on this system.
    NoSuchSignal,
    /// The operating system refused to install the handler.
    Os,
}

/// Send the redundant burst of shutdown notifications. Returns how many
/// of them the channel accepted; a notification is refused only once
/// every receiver of the channel is gone, and a refusal is harmless.
pub fn notify_shutdown(tx: &crossbeam_channel::Sender<()>) -> (accepted: u8)
    ensures
        accepted <= SHUTDOWN_NOTIFICATIONS,
{
    let mut accepted: u8 = 0;
    let mut sent: u8 = 0;
    while sent < SHUTDOWN_NOTIFICATIONS
        invariant
            sent <= SHUTDOWN_NOTIFICATIONS,
            accepted <= sent,
        decreases SHUTDOWN_NOTIFICATIONS - sent,
    {
        if send_signal(tx) {
            accepted = accepted + 1;
        }
        sent = sent + 1;
    }
    accepted
}

/// Relies on ctrlc::set_handler: installs the process-wide interrupt
/// handler; a second installation in the same process is refused with
/// Error::MultipleHandlers, and the other error variants report a
/// missing signal or a system failure. The installed handler runs
/// [`notify_shutdown`] on its copy of the send endpoint on every
/// interrupt delivered to the process.
#[verifier::external_body]
fn install_interrupt_handler(tx: crossbeam_channel::Sender<()>) -> Result<(), SignalError> {
    match ctrlc::set_handler(move || {
        notify_shutdown(&tx);
    }) {
        Ok(()) => Ok(()),
        Err(ctrlc::Error::MultipleHandlers) => Err(SignalError::AlreadyInstalled),
        Err(ctrlc::Error::NoSuchSignal(_)) => Err(SignalError::NoSuchSignal),
        Err(ctrlc::Error::System(_)) => Err(SignalError::Os),
    }
}

/// Install the process-wide interrupt handler and return the receive
/// endpoint that will carry the shutdown notifications. Whether the
/// installation succeeds is decided by the operating system and by
/// whether this process has installed a handler before; on failure the
/// error names the cause and nothing is installed.
pub fn signal_catcher() -> Result<crossbeam_channel::Receiver<()>, SignalError> {
    let (tx, rx) = signal_channel();
    match install_interrupt_handler(tx) {
        Ok(()) => Ok(rx),
        Err(e) => Err(e),
    }
}

} // verus!
