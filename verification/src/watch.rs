//! The subscription to button events: register, wait, register again.

use crate::buttons::Buttons;
use crate::engine::RESPONSE_TIMEOUT_MS;
use crate::frame::RequestError;
use crate::table::CorrelationTable;
use crate::FromBytes;
use vstd::prelude::*;

verus! {

/// The header under which the device reports button events.
pub const BUTTONS_HEADER: u32 = 0x11ff_0500;

/// What the surroundings report back to the subscription.
#[derive(Debug, PartialEq, Eq)]
pub enum WatchEvent<E> {
    /// An endpoint is at hand: at the start and after each round.
    Ready(E),
    /// The endpoint received a report.
    Delivered([u8; 20]),
    /// The endpoint received nothing in time.
    TimedOut,
    /// The endpoint was closed from the other side.
    Disconnected,
}

/// What the subscription asks its surroundings to do next.
#[derive(Clone, Copy, Debug, PartialEq, Eq, Structural)]
pub enum WatchAction {
    /// Wait on the endpoint for at most `timeout_ms` milliseconds.
    Wait { timeout_ms: u64 },
    /// Tell the subscriber of `buttons`, then report `Ready` again.
    Notify { buttons: Buttons },
    /// Nothing came: report `Ready` again.
    Renew,
    /// The subscription ends with `error`.
    Fail { error: RequestError },
}

/// The table after `event`: each round puts the endpoint under the
/// buttons' header, claimed or not.
pub open spec fn watch_table<E>(m: Map<u32, Option<E>>, event: WatchEvent<E>) -> Map<
    u32,
    Option<E>,
> {
    match event {
        WatchEvent::Ready(endpoint) => m.insert(BUTTONS_HEADER, Some(endpoint)),
        _ => m,
    }
}

/// The action taken on `event`.
pub open spec fn watch_action<E>(event: WatchEvent<E>) -> WatchAction {
    match event {
        WatchEvent::Ready(_) => WatchAction::Wait { timeout_ms: RESPONSE_TIMEOUT_MS },
        WatchEvent::Delivered(frame) => WatchAction::Notify {
            buttons: Buttons::decoded(frame@.subrange(4, 20)),
        },
        WatchEvent::TimedOut => WatchAction::Renew,
        WatchEvent::Disconnected => WatchAction::Fail { error: RequestError::TransportClosed },
    }
}

/// One decision of the subscription. It never claims and never gives its
/// header up: every round registers anew, over whatever stands there.
pub fn watch_step<E>(table: &mut CorrelationTable<E>, event: WatchEvent<E>) -> (action: WatchAction)
    ensures
        final(table)@ == watch_table(old(table)@, event),
        action == watch_action(event),
{
    match event {
        WatchEvent::Ready(endpoint) => {
            table.register(BUTTONS_HEADER, endpoint);
            WatchAction::Wait { timeout_ms: RESPONSE_TIMEOUT_MS }
        },
        WatchEvent::Delivered(frame) => {
            let payload = vstd::slice::slice_subrange(frame.as_slice(), 4, 20);
            WatchAction::Notify { buttons: Buttons::from_bytes(payload) }
        },
        WatchEvent::TimedOut => WatchAction::Renew,
        WatchEvent::Disconnected => WatchAction::Fail { error: RequestError::TransportClosed },
    }
}

} // verus!
