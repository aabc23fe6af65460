//! Declarations for the in-process channels that carry packets between
//! nodes and events to the simulation controller. A channel's sending half
//! may be cloned and held by many neighbors; only the owning node drains the
//! receiving half.

use crossbeam_channel::{Receiver, Sender};
use vstd::prelude::*;

verus! {

/// crossbeam's sending half of a channel, opaque to verification.
#[verifier::external_type_specification]
#[verifier::external_body]
#[verifier::reject_recursive_types(T)]
pub struct ExSender<T>(Sender<T>);

/// crossbeam's receiving half of a channel, opaque to verification.
#[verifier::external_type_specification]
#[verifier::external_body]
#[verifier::reject_recursive_types(T)]
pub struct ExReceiver<T>(Receiver<T>);

/// Relies on crossbeam_channel::Sender::send: hands `msg` to the channel and
/// reports whether the receiving side still existed to take it. Whether a
/// given send succeeds depends on the far end of the channel, so nothing
/// more is promised of the result.
#[verifier::external_body]
pub(crate) fn channel_send<T>(sender: &Sender<T>, msg: T) -> (r: bool) {
    sender.send(msg).is_ok()
}

} // verus!
