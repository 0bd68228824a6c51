//! The command surface of the capture loop: requests go out on a broadcast
//! channel that the loop and every open overlay subscribe to.
use vstd::prelude::*;

use crate::capture::{CaptureError, CaptureThreadRequest};

verus! {

#[verifier::external_type_specification]
#[verifier::external_body]
#[verifier::reject_recursive_types(T)]
pub struct ExBroadcastSender<T>(tokio::sync::broadcast::Sender<T>);

#[verifier::external_type_specification]
#[verifier::external_body]
#[verifier::reject_recursive_types(T)]
pub struct ExBroadcastSendError<T>(tokio::sync::broadcast::error::SendError<T>);

/// Relies on tokio's broadcast `Sender::send`: it fails only when no receiver
/// is subscribed, and on success reports the number of subscribed receivers,
/// which is then at least one.
pub assume_specification<T>[ tokio::sync::broadcast::Sender::<T>::send ](
    tx: &tokio::sync::broadcast::Sender<T>,
    value: T,
) -> (r: Result<usize, tokio::sync::broadcast::error::SendError<T>>)
    ensures
        r matches Ok(n) ==> n >= 1,
;

/// Sends `request` to every subscriber of the capture channel. `sender` is
/// `None` until the capture loop has been started. Without a sender this
/// fails with `NotInitialized`; with one it succeeds, or fails with
/// `ChannelClosed` when nobody listens any more.
pub fn send_request(
    sender: Option<&tokio::sync::broadcast::Sender<CaptureThreadRequest>>,
    request: CaptureThreadRequest,
) -> (r: Result<(), CaptureError>)
    ensures
        sender is None <==> r == Err::<(), CaptureError>(CaptureError::NotInitialized),
        r matches Err(e) ==> e == CaptureError::NotInitialized || e
            == CaptureError::ChannelClosed,
{
    match sender {
        None => Err(CaptureError::NotInitialized),
        Some(tx) => match tx.send(request) {
            Ok(_) => Ok(()),
            Err(_) => Err(CaptureError::ChannelClosed),
        },
    }
}

/// Asks the capture loop to start a pass.
pub fn start_capture(sender: Option<&tokio::sync::broadcast::Sender<CaptureThreadRequest>>) -> (r:
    Result<(), CaptureError>)
    ensures
        sender is None <==> r == Err::<(), CaptureError>(CaptureError::NotInitialized),
        r matches Err(e) ==> e == CaptureError::NotInitialized || e
            == CaptureError::ChannelClosed,
{
    send_request(sender, CaptureThreadRequest::Start)
}

/// Asks the capture loop and every open overlay to finish the pass.
pub fn stop_capture(sender: Option<&tokio::sync::broadcast::Sender<CaptureThreadRequest>>) -> (r:
    Result<(), CaptureError>)
    ensures
        sender is None <==> r == Err::<(), CaptureError>(CaptureError::NotInitialized),
        r matches Err(e) ==> e == CaptureError::NotInitialized || e
            == CaptureError::ChannelClosed,
{
    send_request(sender, CaptureThreadRequest::Quit)
}

} // verus!
