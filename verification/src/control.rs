use vstd::prelude::*;
use std::sync::mpsc::Sender;

verus! {

/// The sending half of a channel of `std::sync::mpsc`, as the control thread
/// holds it. Nothing of its inside is known here.
#[verifier::external_type_specification]
#[verifier::external_body]
#[verifier::reject_recursive_types(T)]
pub struct ExSender<T>(Sender<T>);

/// Calls `std::sync::mpsc::Sender::send`, which fails only when the
/// receiving half is gone and then returns the message inside its error.
/// The message is taken out of the error; whether the send succeeds is
/// left open.
#[verifier::external_body]
fn send<T>(sender: &Sender<T>, message: T) -> (sent: Result<(), T>)
    ensures
        sent matches Err(returned) ==> returned == message,
{
    match sender.send(message) {
        Ok(()) => Ok(()),
        Err(error) => Err(error.0),
    }
}

/// Sends new settings to the audio thread. Where that thread no longer
/// listens, the settings come back as the error.
pub fn send_params<T: Send>(sender: &Sender<T>, params: T) -> (sent: Result<(), T>)
    ensures
        sent matches Err(returned) ==> returned == params,
{
    send(sender, params)
}

} // verus!
