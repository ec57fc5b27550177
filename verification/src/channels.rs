use vstd::prelude::*;

use tokio::sync::{mpsc, oneshot};

use crate::app::UiEvent;

verus! {

/// The sending half of a one-shot channel, carried through opaque.
#[verifier::external_type_specification]
#[verifier::external_body]
#[verifier::reject_recursive_types(T)]
pub struct ExOneshotSender<T>(oneshot::Sender<T>);

/// The sending half of a bounded channel, carried through opaque.
#[verifier::external_type_specification]
#[verifier::external_body]
#[verifier::reject_recursive_types(T)]
pub struct ExMpscSender<T>(mpsc::Sender<T>);

/// The receiving half of a bounded channel, carried through opaque.
#[verifier::external_type_specification]
#[verifier::external_body]
#[verifier::reject_recursive_types(T)]
pub struct ExMpscReceiver<T>(mpsc::Receiver<T>);

/// Calls `tokio::sync::mpsc::Receiver::try_recv`: an event that is waiting, if any.
/// What comes back depends on the other tasks, so nothing is stated of it.
#[verifier::external_body]
pub(crate) fn poll_event(rx: &mut mpsc::Receiver<UiEvent>) -> (event: Option<UiEvent>) {
    rx.try_recv().ok()
}

} // verus!
