//! The table under any interleaving of requests, subscription and listener.

use crate::engine::{fails, next_action, next_table, Event, Phase};
use crate::frame::{header_key, FRAME_LEN};
use crate::listener::{listener_action, listener_table, ListenerAction, ListenerEvent};
use crate::table::has_registrant;
use crate::watch::{watch_table, WatchEvent, BUTTONS_HEADER};
use vstd::prelude::*;

verus! {

/// One step of one party on the shared table.
pub enum Move<E> {
    /// Some request, in `phase` and with the report `frame`, handles `event`.
    Request { phase: Phase, frame: [u8; 20], event: Event<E> },
    /// The listener handles `event`.
    Listener { event: ListenerEvent },
    /// The subscription handles `event`.
    Watch { event: WatchEvent<E> },
}

/// The table after one move.
pub open spec fn applied<E>(m: Map<u32, Option<E>>, step: Move<E>) -> Map<u32, Option<E>> {
    match step {
        Move::Request { phase, frame, event } => next_table(phase, frame, m, event),
        Move::Listener { event } => listener_table(m, event),
        Move::Watch { event } => watch_table(m, event),
    }
}

/// The table after a sequence of moves, first to last.
pub open spec fn run<E>(m: Map<u32, Option<E>>, moves: Seq<Move<E>>) -> Map<u32, Option<E>>
    decreases moves.len(),
{
    if moves.len() == 0 {
        m
    } else {
        applied(run(m, moves.drop_last()), moves.last())
    }
}

/// Whether the move is the listener routing a whole report with `header`.
pub open spec fn routes<E>(step: Move<E>, header: u32) -> bool {
    step matches Move::Listener { event: ListenerEvent::Read { count, data } } && count
        == FRAME_LEN && header_key(data@) == header
}

/// Whether the move is a request with `header` giving up.
pub open spec fn abandons<E>(step: Move<E>, header: u32) -> bool {
    step matches Move::Request { phase, frame, event } && fails(phase, event) && header_key(
        frame@,
    ) == header
}

/// Whether the move is the subscription registering under `header`.
pub open spec fn resubscribes<E>(step: Move<E>, header: u32) -> bool {
    step matches Move::Watch { event: WatchEvent::Ready(_) } && header == BUTTONS_HEADER
}

/// Whether the move is a request with `header` trying to claim it.
pub open spec fn claims<E>(step: Move<E>, header: u32) -> bool {
    step matches Move::Request { phase: Phase::Claiming, frame, event: Event::Ready(_) }
        && header_key(frame@) == header
}

/// A registration stands until its report arrives or its request fails.
/// Whatever requests, listener and subscription do in whatever order, the
/// endpoint under a header stays the one that was registered, as long as
/// the listener routes no report with that header, no request with that
/// header gives up and the subscription does not register under it; and
/// every request that tries to claim the header meanwhile is turned away.
pub proof fn lemma_registration_stands<E>(m: Map<u32, Option<E>>, moves: Seq<Move<E>>, header: u32)
    requires
        has_registrant(m, header),
        forall|i: int|
            0 <= i < moves.len() ==> !routes(#[trigger] moves[i], header) && !abandons(
                moves[i],
                header,
            ) && !resubscribes(moves[i], header),
    ensures
        has_registrant(run(m, moves), header),
        run(m, moves)[header] == m[header],
        forall|i: int|
            0 <= i < moves.len() && claims(#[trigger] moves[i], header) ==> next_action(
                moves[i]->Request_phase,
                moves[i]->frame,
                run(m, moves.take(i)),
                moves[i]->Request_event,
            ) is RetryClaim,
    decreases moves.len(),
{
    if moves.len() > 0 {
        let front = moves.drop_last();
        assert forall|i: int| 0 <= i < front.len() implies !routes(#[trigger] front[i], header)
            && !abandons(front[i], header) && !resubscribes(front[i], header) by {
            assert(front[i] == moves[i]);
        }
        lemma_registration_stands(m, front, header);
        let last = moves.last();
        assert(!routes(last, header) && !abandons(last, header) && !resubscribes(last, header));
        assert forall|i: int| 0 <= i < moves.len() && claims(#[trigger] moves[i], header) implies next_action(
            moves[i]->Request_phase,
            moves[i]->frame,
            run(m, moves.take(i)),
            moves[i]->Request_event,
        ) is RetryClaim by {
            if i < front.len() {
                assert(front[i] == moves[i]);
                assert(front.take(i) =~= moves.take(i));
            } else {
                assert(moves.take(i) =~= front);
            }
        }
    }
}

/// The table shrinks in two ways only. A move that takes an entry out is
/// either the listener handing a whole report to the endpoint that stood
/// under the report's header, or a request with that header giving up;
/// and it takes out that entry alone.
pub proof fn lemma_entry_leaves_only_by_delivery_or_failure<E>(
    m: Map<u32, Option<E>>,
    step: Move<E>,
    header: u32,
)
    requires
        m.contains_key(header),
        !applied(m, step).contains_key(header),
    ensures
        routes(step, header) || abandons(step, header),
        routes(step, header) ==> has_registrant(m, header) && listener_action(
            m,
            step->Listener_event,
        ) == (ListenerAction::Deliver {
            endpoint: m[header]->Some_0,
            frame: step->Listener_event->data,
        }),
        abandons(step, header) ==> next_action(
            step->Request_phase,
            step->frame,
            m,
            step->Request_event,
        ) is Fail,
        applied(m, step) == m.remove(header),
{
}

} // verus!
