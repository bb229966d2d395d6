//! The listener's decisions: when to read, and where a report goes.

use crate::frame::{header_key, header_of, RequestError, FRAME_LEN};
use crate::table::{has_registrant, resolved, CorrelationTable, Resolution};
use vstd::prelude::*;

verus! {

/// Pause between two polls of the device, in milliseconds.
pub const POLL_INTERVAL_MS: u64 = 100;

/// What the listener's surroundings report back to it.
#[derive(Clone, Copy, Debug, PartialEq, Eq)]
pub enum ListenerEvent {
    /// The pause between two polls is over.
    Woke,
    /// A read returned `count` bytes, which stand at the front of `data`.
    Read { count: usize, data: [u8; 20] },
    /// The read failed for good.
    ReadFailed,
}

/// What the listener asks its surroundings to do next.
#[derive(Debug, PartialEq, Eq)]
pub enum ListenerAction<E> {
    /// Pause for `ms` milliseconds, then report `Woke`.
    Sleep { ms: u64 },
    /// Read one report from the device.
    Read,
    /// Hand `frame` to `endpoint`, then pause as for `Sleep`.
    Deliver { endpoint: E, frame: [u8; 20] },
    /// Give up: the device can no longer be read.
    Stop { error: RequestError },
}

/// Whether the event is a read of one whole report.
pub open spec fn is_full_read(event: ListenerEvent) -> bool {
    event matches ListenerEvent::Read { count, .. } && count == FRAME_LEN
}

/// The table after the listener handled `event`.
pub open spec fn listener_table<E>(m: Map<u32, Option<E>>, event: ListenerEvent) -> Map<
    u32,
    Option<E>,
> {
    match event {
        ListenerEvent::Read { count, data } => if count == FRAME_LEN {
            resolved(m, header_key(data@))
        } else {
            m
        },
        _ => m,
    }
}

/// The action the listener takes on `event`.
pub open spec fn listener_action<E>(m: Map<u32, Option<E>>, event: ListenerEvent) -> ListenerAction<
    E,
> {
    match event {
        ListenerEvent::Woke => if m.is_empty() {
            ListenerAction::Sleep { ms: POLL_INTERVAL_MS }
        } else {
            ListenerAction::Read
        },
        ListenerEvent::Read { count, data } => if count == FRAME_LEN && has_registrant(
            m,
            header_key(data@),
        ) {
            ListenerAction::Deliver { endpoint: m[header_key(data@)]->Some_0, frame: data }
        } else {
            ListenerAction::Sleep { ms: POLL_INTERVAL_MS }
        },
        ListenerEvent::ReadFailed => ListenerAction::Stop { error: RequestError::TransportRead },
    }
}

/// One decision of the listener. It reads only while somebody waits. Only
/// a read of twenty bytes is a report: a read of nothing is no event, and
/// a shorter read is dropped without a look at the table. A report goes
/// to the registrant of its header, whose entry is then gone, or is
/// dropped.
pub fn listener_step<E>(table: &mut CorrelationTable<E>, event: ListenerEvent) -> (action:
    ListenerAction<E>)
    ensures
        final(table)@ == listener_table(old(table)@, event),
        action == listener_action(old(table)@, event),
{
    match event {
        ListenerEvent::Woke => {
            if table.is_empty() {
                ListenerAction::Sleep { ms: POLL_INTERVAL_MS }
            } else {
                ListenerAction::Read
            }
        },
        ListenerEvent::Read { count, data } => {
            if count != FRAME_LEN {
                ListenerAction::Sleep { ms: POLL_INTERVAL_MS }
            } else {
                let key = header_of(&data);
                match table.resolve(key, data) {
                    Resolution::Delivered { endpoint, frame } => ListenerAction::Deliver {
                        endpoint,
                        frame,
                    },
                    Resolution::Unmatched => ListenerAction::Sleep { ms: POLL_INTERVAL_MS },
                }
            }
        },
        ListenerEvent::ReadFailed => ListenerAction::Stop { error: RequestError::TransportRead },
    }
}

/// The listener never adds an entry, and it takes one out only when it
/// hands a whole report, as it was read, to that entry's endpoint. A read
/// of fewer than twenty bytes reaches nobody and changes nothing.
pub proof fn lemma_listener_removes_only_on_delivery<E>(m: Map<u32, Option<E>>, event: ListenerEvent)
    ensures
        listener_table(m, event).submap_of(m),
        listener_table(m, event) != m ==> listener_action(m, event) is Deliver,
        listener_action(m, event) is Deliver ==> is_full_read(event) && listener_table(m, event)
            == m.remove(header_key(event->data@)) && listener_action(m, event)->frame
            == event->data,
        !is_full_read(event) ==> listener_table(m, event) == m && !(listener_action(
            m,
            event,
        ) is Deliver),
{
    match event {
        ListenerEvent::Read { count, data } => {
            if count == FRAME_LEN && has_registrant(m, header_key(data@)) {
            } else {
                assert(listener_table(m, event) == m);
            }
        },
        _ => {},
    }
}

} // verus!
