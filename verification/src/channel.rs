use vstd::prelude::*;

use crossbeam_channel::Receiver;
use crossbeam_channel::Sender;

verus! {

#[verifier::external_type_specification]
#[verifier::external_body]
#[verifier::reject_recursive_types(T)]
pub struct ExSender<T>(Sender<T>);

#[verifier::external_type_specification]
#[verifier::external_body]
#[verifier::reject_recursive_types(T)]
pub struct ExReceiver<T>(Receiver<T>);

/// Relies on crossbeam_channel::unbounded: a fresh channel of unbounded
/// capacity whose receiver yields messages in the order they were sent.
#[verifier::external_body]
pub(crate) fn channel_pair<T>() -> (Sender<T>, Receiver<T>) {
    crossbeam_channel::unbounded::<T>()
}

/// Relies on crossbeam_channel::Sender::send: it fails only once every
/// receiver of the channel has been dropped, and the error then hands the
/// message back unchanged.
#[verifier::external_body]
pub(crate) fn channel_send<T>(tx: &Sender<T>, value: T) -> (r: Result<(), T>)
    ensures
        r matches Err(v) ==> v == value,
{
    match tx.send(value) {
        Ok(()) => Ok(()),
        Err(e) => Err(e.0),
    }
}

/// Relies on crossbeam_channel::Receiver::try_recv: pops the message at the
/// head of the channel, or returns nothing, never blocking.
#[verifier::external_body]
pub(crate) fn channel_try_recv<T>(rx: &Receiver<T>) -> (r: Option<T>) {
    rx.try_recv().ok()
}

/// Relies on crossbeam_channel::Receiver::recv: blocks until a message
/// arrives and pops it; returns nothing only once the channel is empty and
/// every sender has been dropped.
#[verifier::external_body]
pub(crate) fn channel_recv<T>(rx: &Receiver<T>) -> (r: Option<T>) {
    rx.recv().ok()
}

/// Relies on crossbeam_channel::Receiver::len: how many messages sit in the
/// channel at this instant.
#[verifier::external_body]
pub(crate) fn channel_pending<T>(rx: &Receiver<T>) -> usize {
    rx.len()
}

/// Relies on crossbeam_channel::Sender::clone: the clone feeds the same
/// channel as the original.
#[verifier::external_body]
pub(crate) fn clone_sender<T>(tx: &Sender<T>) -> Sender<T> {
    tx.clone()
}

} // verus!
