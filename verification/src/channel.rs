//! Declarations of the standard channel endpoints the client and the view
//! state talk through. What arrives on a channel depends on the other
//! side, so nothing is promised of the results; the verified callers state
//! what holds of every outcome.

use vstd::prelude::*;
use std::sync::mpsc::Receiver;
use std::sync::mpsc::Sender;
use crate::actions::TerminalAction;
use crate::actions::TwitchAction;

verus! {

#[verifier::external_type_specification]
#[verifier::external_body]
#[verifier::reject_recursive_types(T)]
pub struct ExReceiver<T>(Receiver<T>);

#[verifier::external_type_specification]
#[verifier::external_body]
#[verifier::reject_recursive_types(T)]
pub struct ExSender<T>(Sender<T>);

/// Relies on `std::sync::mpsc::Receiver::try_recv`: hands back the next
/// queued value if one is waiting, without blocking; nothing can be said
/// of which value that is.
#[verifier::external_body]
pub(crate) fn try_recv_terminal(rx: &Receiver<TerminalAction>) -> (r: Option<TerminalAction>) {
    rx.try_recv().ok()
}

/// Relies on `std::sync::mpsc::Sender::send`: queues a value for the
/// receiving half; reports whether that half was still connected.
#[verifier::external_body]
pub(crate) fn send_twitch_action(tx: &Sender<TwitchAction>, action: TwitchAction) -> (r: bool) {
    tx.send(action).is_ok()
}

} // verus!
