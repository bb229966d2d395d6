//! The request engine: claim the header, register, write, wait, resend.

use crate::frame::{build_frame, header_key, header_of, padded, RequestError};
use crate::table::{has_registrant, CorrelationTable};
use crate::AsBytes;
use vstd::prelude::*;

verus! {

/// Pause before a busy header is tried again, in milliseconds.
pub const CLAIM_RETRY_MS: u64 = 100;

/// How long one write is given to be answered, in milliseconds.
pub const RESPONSE_TIMEOUT_MS: u64 = 2000;

/// Where a request stands.
#[derive(Clone, Copy, Debug, PartialEq, Eq, Structural)]
pub enum Phase {
    /// Its header is not yet its own.
    Claiming,
    /// Registered; the report is to be written.
    Writing,
    /// Written; the response is awaited.
    Waiting,
    /// The response was returned.
    Done,
    /// The request was given up with an error.
    Failed,
}

/// What the surroundings report back to a request.
#[derive(Debug, PartialEq, Eq)]
pub enum Event<E> {
    /// A delivery endpoint is at hand: at the start, and after each pause
    /// that a busy header caused.
    Ready(E),
    /// The report was written.
    Written,
    /// Writing the report failed.
    WriteFailed,
    /// The endpoint received a report.
    Delivered([u8; 20]),
    /// The endpoint received nothing in time.
    TimedOut,
    /// The endpoint was closed from the other side.
    Disconnected,
}

/// What a request asks its surroundings to do next.
#[derive(Debug, PartialEq, Eq)]
pub enum Action<E> {
    /// The header is in flight: pause, then report `Ready` with the endpoint.
    RetryClaim { endpoint: E, after_ms: u64 },
    /// Write `frame` to the device.
    Write { frame: [u8; 20] },
    /// Wait on the endpoint for at most `timeout_ms` milliseconds.
    Wait { timeout_ms: u64 },
    /// The request is answered by `frame`.
    Return { frame: [u8; 20] },
    /// The request ends with `error`.
    Fail { error: RequestError },
    /// The event does not belong to this phase; nothing changed.
    Stray,
}

/// One exchange with the device: the report to send and how far it got.
#[derive(Clone, Copy, Debug, PartialEq, Eq)]
pub struct Request {
    pub frame: [u8; 20],
    pub phase: Phase,
}

/// The phase after `event`.
pub open spec fn next_phase<E>(
    phase: Phase,
    frame: [u8; 20],
    m: Map<u32, Option<E>>,
    event: Event<E>,
) -> Phase {
    match (phase, event) {
        (Phase::Claiming, Event::Ready(_)) => if m.contains_key(header_key(frame@)) {
            Phase::Claiming
        } else {
            Phase::Writing
        },
        (Phase::Writing, Event::Written) => Phase::Waiting,
        (Phase::Writing, Event::WriteFailed) => Phase::Failed,
        (Phase::Waiting, Event::Delivered(_)) => Phase::Done,
        (Phase::Waiting, Event::TimedOut) => Phase::Writing,
        (Phase::Waiting, Event::Disconnected) => Phase::Failed,
        _ => phase,
    }
}

/// The table after `event`. A successful claim puts the endpoint under
/// the request's header; a request that fails takes its header out.
pub open spec fn next_table<E>(
    phase: Phase,
    frame: [u8; 20],
    m: Map<u32, Option<E>>,
    event: Event<E>,
) -> Map<u32, Option<E>> {
    match (phase, event) {
        (Phase::Claiming, Event::Ready(endpoint)) => if m.contains_key(header_key(frame@)) {
            m
        } else {
            m.insert(header_key(frame@), Some(endpoint))
        },
        (Phase::Writing, Event::WriteFailed) => m.remove(header_key(frame@)),
        (Phase::Waiting, Event::Disconnected) => m.remove(header_key(frame@)),
        _ => m,
    }
}

/// The action taken on `event`.
pub open spec fn next_action<E>(
    phase: Phase,
    frame: [u8; 20],
    m: Map<u32, Option<E>>,
    event: Event<E>,
) -> Action<E> {
    match (phase, event) {
        (Phase::Claiming, Event::Ready(endpoint)) => if m.contains_key(header_key(frame@)) {
            Action::RetryClaim { endpoint, after_ms: CLAIM_RETRY_MS }
        } else {
            Action::Write { frame }
        },
        (Phase::Writing, Event::Written) => Action::Wait { timeout_ms: RESPONSE_TIMEOUT_MS },
        (Phase::Writing, Event::WriteFailed) => Action::Fail {
            error: RequestError::TransportWrite,
        },
        (Phase::Waiting, Event::Delivered(response)) => Action::Return { frame: response },
        (Phase::Waiting, Event::TimedOut) => Action::Write { frame },
        (Phase::Waiting, Event::Disconnected) => Action::Fail {
            error: RequestError::TransportClosed,
        },
        _ => Action::Stray,
    }
}

impl Request {
    /// A request for `request`, zero-padded to a report, with its header
    /// still to be claimed. More than twenty bytes are refused, before
    /// anything can be written.
    pub fn new(request: &[u8]) -> (out: Result<Request, RequestError>)
        ensures
            request@.len() <= 20 ==> out is Ok && out->Ok_0.frame@ == padded(request@)
                && out->Ok_0.phase == Phase::Claiming,
            request@.len() > 20 ==> out is Err && out->Err_0 == RequestError::InvalidRequest,
    {
        match build_frame(request) {
            Ok(frame) => Ok(Request { frame, phase: Phase::Claiming }),
            Err(error) => Err(error),
        }
    }

    /// The correlation key under which the response is expected.
    pub fn header(&self) -> (key: u32)
        ensures
            key == header_key(self.frame@),
    {
        header_of(&self.frame)
    }

    /// One decision of the request. Claim and registration are one step on
    /// the table; the report written after a timeout is the report written
    /// before; the report itself never changes. A request that fails
    /// takes its header out of the table, so that the next request with
    /// that header can begin. An event that does not belong to the phase
    /// changes nothing.
    pub fn step<E>(&mut self, event: Event<E>, table: &mut CorrelationTable<E>) -> (action: Action<
        E,
    >)
        ensures
            final(self).frame == old(self).frame,
            final(self).phase == next_phase(old(self).phase, old(self).frame, old(table)@, event),
            final(table)@ == next_table(old(self).phase, old(self).frame, old(table)@, event),
            action == next_action(old(self).phase, old(self).frame, old(table)@, event),
    {
        match self.phase {
            Phase::Claiming => match event {
                Event::Ready(endpoint) => {
                    let key = header_of(&self.frame);
                    if table.try_claim(key) {
                        table.register(key, endpoint);
                        self.phase = Phase::Writing;
                        assert(table@ =~= old(table)@.insert(key, Some(endpoint)));
                        Action::Write { frame: self.frame }
                    } else {
                        Action::RetryClaim { endpoint, after_ms: CLAIM_RETRY_MS }
                    }
                },
                _ => Action::Stray,
            },
            Phase::Writing => match event {
                Event::Written => {
                    self.phase = Phase::Waiting;
                    Action::Wait { timeout_ms: RESPONSE_TIMEOUT_MS }
                },
                Event::WriteFailed => {
                    table.remove(header_of(&self.frame));
                    self.phase = Phase::Failed;
                    Action::Fail { error: RequestError::TransportWrite }
                },
                _ => Action::Stray,
            },
            Phase::Waiting => match event {
                Event::Delivered(response) => {
                    self.phase = Phase::Done;
                    Action::Return { frame: response }
                },
                Event::TimedOut => {
                    self.phase = Phase::Writing;
                    Action::Write { frame: self.frame }
                },
                Event::Disconnected => {
                    table.remove(header_of(&self.frame));
                    self.phase = Phase::Failed;
                    Action::Fail { error: RequestError::TransportClosed }
                },
                _ => Action::Stray,
            },
            _ => Action::Stray,
        }
    }
}

/// Same-header requests are serialised. While one request holds a header,
/// another request with that header gets no entry, writes nothing and is
/// told to try again; the table stays as it is.
pub proof fn lemma_same_header_waits<E>(
    first: [u8; 20],
    second: [u8; 20],
    m: Map<u32, Option<E>>,
    e1: E,
    e2: E,
)
    requires
        header_key(first@) == header_key(second@),
        !m.contains_key(header_key(first@)),
    ensures
        next_action(Phase::Claiming, first, m, Event::Ready(e1)) == (Action::<E>::Write {
            frame: first,
        }),
        ({
            let held = next_table(Phase::Claiming, first, m, Event::Ready(e1));
            &&& held[header_key(first@)] == Some(e1)
            &&& next_table(Phase::Claiming, second, held, Event::Ready(e2)) == held
            &&& next_phase(Phase::Claiming, second, held, Event::Ready(e2)) == Phase::Claiming
            &&& next_action(Phase::Claiming, second, held, Event::Ready(e2)) == (Action::RetryClaim {
                endpoint: e2,
                after_ms: CLAIM_RETRY_MS,
            })
        }),
{
}

/// Requests with different headers do not hold each other up: whether one
/// of them is in flight has no bearing on the other's claim.
pub proof fn lemma_distinct_headers_proceed<E>(
    first: [u8; 20],
    second: [u8; 20],
    m: Map<u32, Option<E>>,
    e1: E,
    e2: E,
)
    requires
        header_key(first@) != header_key(second@),
        !m.contains_key(header_key(first@)),
        !m.contains_key(header_key(second@)),
    ensures
        ({
            let held = next_table(Phase::Claiming, first, m, Event::Ready(e1));
            &&& next_phase(Phase::Claiming, second, held, Event::Ready(e2)) == Phase::Writing
            &&& next_action(Phase::Claiming, second, held, Event::Ready(e2)) == (Action::<
                E,
            >::Write { frame: second })
            &&& next_table(Phase::Claiming, second, held, Event::Ready(e2))[header_key(first@)]
                == Some(e1)
            &&& next_table(Phase::Claiming, second, held, Event::Ready(e2))[header_key(second@)]
                == Some(e2)
        }),
{
}

/// A timeout leads to a second write of the very same report, with the
/// table untouched; the response to that write is what the request
/// returns.
pub proof fn lemma_timeout_resends_same_frame<E>(
    frame: [u8; 20],
    m: Map<u32, Option<E>>,
    response: [u8; 20],
)
    ensures
        next_phase(Phase::Waiting, frame, m, Event::<E>::TimedOut) == Phase::Writing,
        next_action(Phase::Waiting, frame, m, Event::<E>::TimedOut) == (Action::<E>::Write {
            frame,
        }),
        next_table(Phase::Waiting, frame, m, Event::<E>::TimedOut) == m,
        next_phase(Phase::Writing, frame, m, Event::<E>::Written) == Phase::Waiting,
        next_action(Phase::Writing, frame, m, Event::<E>::Written) == (Action::<E>::Wait {
            timeout_ms: RESPONSE_TIMEOUT_MS,
        }),
        next_action(Phase::Waiting, frame, m, Event::<E>::Delivered(response)) == (Action::<
            E,
        >::Return { frame: response }),
        next_phase(Phase::Waiting, frame, m, Event::<E>::Delivered(response)) == Phase::Done,
{
}

/// Whether the request gives up on `event`.
pub open spec fn fails<E>(phase: Phase, event: Event<E>) -> bool {
    (phase == Phase::Writing && event is WriteFailed) || (phase == Phase::Waiting
        && event is Disconnected)
}

/// Nothing is written before the header is registered, and every write
/// carries the request's own report. A request changes the table in two
/// ways only: it registers itself under a header that was free, or it
/// fails and takes its header out.
pub proof fn lemma_write_only_when_registered<E>(
    phase: Phase,
    frame: [u8; 20],
    m: Map<u32, Option<E>>,
    event: Event<E>,
)
    ensures
        next_action(phase, frame, m, event) is Write && phase == Phase::Claiming ==> has_registrant(
            next_table(phase, frame, m, event),
            header_key(frame@),
        ) && !m.contains_key(header_key(frame@)),
        next_action(phase, frame, m, event) is Write ==> next_action(
            phase,
            frame,
            m,
            event,
        )->Write_frame == frame,
        next_table(phase, frame, m, event) != m ==> {
            ||| phase == Phase::Claiming && event is Ready && !m.contains_key(header_key(frame@))
                && next_table(phase, frame, m, event) == m.insert(
                header_key(frame@),
                Some(event->Ready_0),
            )
            ||| fails(phase, event) && m.contains_key(header_key(frame@)) && next_table(
                phase,
                frame,
                m,
                event,
            ) == m.remove(header_key(frame@))
        },
{
    if fails(phase, event) && !m.contains_key(header_key(frame@)) {
        assert(m.remove(header_key(frame@)) =~= m);
    }
}

/// A request that fails is aborted alone. Its header is free again, so
/// the next request with that header registers at once and writes; no
/// further write of the failed request follows; and the entry of every
/// other header is as it was.
pub proof fn lemma_failure_frees_header<E>(
    phase: Phase,
    frame: [u8; 20],
    m: Map<u32, Option<E>>,
    event: Event<E>,
    later: [u8; 20],
    endpoint: E,
    other: u32,
)
    requires
        fails(phase, event),
        header_key(later@) == header_key(frame@),
        other != header_key(frame@),
    ensures
        next_action(phase, frame, m, event) is Fail,
        next_phase(phase, frame, m, event) == Phase::Failed,
        !next_table(phase, frame, m, event).contains_key(header_key(frame@)),
        next_action(
            Phase::Claiming,
            later,
            next_table(phase, frame, m, event),
            Event::Ready(endpoint),
        ) == (Action::<E>::Write { frame: later }),
        forall|any: Event<E>| #[trigger]
            next_action(Phase::Failed, frame, next_table(phase, frame, m, event), any) is Stray,
        next_table(phase, frame, m, event).contains_key(other) == m.contains_key(other),
        m.contains_key(other) ==> next_table(phase, frame, m, event)[other] == m[other],
{
}

/// A request never displaces another: whatever stands in the table under
/// a header other than the request's own stands there unchanged after the
/// request's step, and so does what stands under its own header unless
/// the request fails.
pub proof fn lemma_request_never_displaces<E>(
    phase: Phase,
    frame: [u8; 20],
    m: Map<u32, Option<E>>,
    event: Event<E>,
    header: u32,
)
    requires
        m.contains_key(header),
        header != header_key(frame@) || !fails(phase, event),
    ensures
        next_table(phase, frame, m, event).contains_key(header),
        next_table(phase, frame, m, event)[header] == m[header],
{
}

impl AsBytes for Request {
    /// The report as it goes to the device.
    open spec fn bytes(&self) -> Seq<u8> {
        self.frame@
    }

    fn as_bytes(&self) -> (out: Vec<u8>) {
        let mut out: Vec<u8> = Vec::new();
        let mut i: usize = 0;
        while i < 20
            invariant
                i <= 20,
                out@ == self.frame@.subrange(0, i as int),
            decreases 20 - i,
        {
            out.push(self.frame[i]);
            assert(out@ =~= self.frame@.subrange(0, i + 1));
            i += 1;
        }
        assert(out@ =~= self.frame@);
        out
    }
}

} // verus!
