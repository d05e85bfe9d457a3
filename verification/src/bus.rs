use tokio::sync::broadcast::{Receiver, Sender};
use vstd::prelude::*;

verus! {

/// How many notifications the bus holds for a subscriber that has not read
/// them yet.
pub const CHANNEL_SIZE: usize = 32;

/// The sending half of tokio's broadcast channel.
#[verifier::external_type_specification]
#[verifier::external_body]
#[verifier::reject_recursive_types(T)]
pub struct ExSender<T>(tokio::sync::broadcast::Sender<T>);

/// The receiving half of tokio's broadcast channel.
#[verifier::external_type_specification]
#[verifier::external_body]
#[verifier::reject_recursive_types(T)]
pub struct ExReceiver<T>(tokio::sync::broadcast::Receiver<T>);

/// `tokio::sync::broadcast::channel`, which panics on a capacity of zero and
/// on one above half of `usize::MAX`. Nothing is claimed of the two halves.
pub assume_specification<T: Clone>[ tokio::sync::broadcast::channel::<T> ](capacity: usize) -> (r: (
    Sender<T>,
    Receiver<T>,
))
    requires
        0 < capacity <= usize::MAX / 2,
;

/// `Sender::subscribe`: a new receiving half. Nothing is claimed of it.
pub assume_specification<T>[ tokio::sync::broadcast::Sender::<T>::subscribe ](
    tx: &Sender<T>,
) -> (rx: Receiver<T>)
;

/// `Sender::send`. With no receiver left the value comes back; otherwise the
/// result is the number of receivers, which is then at least one.
#[verifier::external_body]
pub(crate) fn send<T>(tx: &Sender<T>, value: T) -> (r: Result<usize, T>)
    ensures
        match r {
            Ok(receivers) => receivers >= 1,
            Err(back) => back == value,
        },
{
    match tx.send(value) {
        Ok(receivers) => Ok(receivers),
        Err(refused) => Err(refused.0),
    }
}

} // verus!
