//! The receiving end of the channels that feed the runner.
//!
//! What a channel holds depends on the other threads, so nothing is claimed
//! of what a poll returns: the runner's decisions are functions of the polled
//! values and are stated there.

use vstd::prelude::*;

verus! {

/// `kanal::Receiver`, carried through as an opaque value.
#[verifier::external_type_specification]
#[verifier::external_body]
#[verifier::reject_recursive_types(T)]
pub struct ExReceiver<T>(kanal::Receiver<T>);

/// Calls `kanal::Receiver::is_disconnected`: whether the sending side of the
/// channel is closed, as it is once every sender was dropped.  Nothing is
/// claimed of the answer.
#[verifier::external_body]
pub(crate) fn senders_gone<T>(rx: &kanal::Receiver<T>) -> bool {
    rx.is_disconnected()
}

/// Calls `kanal::Receiver::try_recv`, which takes the oldest queued item
/// without waiting.  A closed channel is reported as nothing received.
/// Nothing is claimed of the result.
#[verifier::external_body]
pub(crate) fn try_take<T>(rx: &kanal::Receiver<T>) -> Option<T> {
    match rx.try_recv() {
        Ok(item) => item,
        Err(_) => None,
    }
}

/// Calls `kanal::Receiver::drain_into`, which moves everything queued to the
/// end of `into`, oldest first, and leaves what `into` held in place.
#[verifier::external_body]
pub(crate) fn drain_queued<T>(rx: &kanal::Receiver<T>, into: &mut Vec<T>)
    ensures
        old(into)@.len() <= final(into)@.len(),
        final(into)@.subrange(0, old(into)@.len() as int) == old(into)@,
{
    let _ = rx.drain_into(into);
}

} // verus!
