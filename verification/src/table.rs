//! The correlation table: which header is in flight, and who waits for it.

use std::collections::HashMap;
use vstd::prelude::*;

verus! {

broadcast use vstd::std_specs::hash::group_hash_axioms;

/// What became of a report handed to the table.
#[derive(Debug, PartialEq, Eq)]
pub enum Resolution<E> {
    /// The header had a registrant: the report goes to this endpoint, once.
    Delivered { endpoint: E, frame: [u8; 20] },
    /// Nobody is registered under the header: the report is dropped.
    Unmatched,
}

/// At most one entry per header. An entry is either a reservation
/// (`None`) or the delivery endpoint of the one waiting caller.
pub struct CorrelationTable<E> {
    entries: HashMap<u32, Option<E>>,
}

/// The table after an attempt to claim `header`, and whether it succeeded.
pub open spec fn claimed<E>(m: Map<u32, Option<E>>, header: u32) -> (Map<u32, Option<E>>, bool) {
    if m.contains_key(header) {
        (m, false)
    } else {
        (m.insert(header, None), true)
    }
}

/// Whether a caller is registered under `header`.
pub open spec fn has_registrant<E>(m: Map<u32, Option<E>>, header: u32) -> bool {
    m.contains_key(header) && m[header] is Some
}

/// The table after a report with `header` was routed.
pub open spec fn resolved<E>(m: Map<u32, Option<E>>, header: u32) -> Map<u32, Option<E>> {
    if has_registrant(m, header) {
        m.remove(header)
    } else {
        m
    }
}

impl<E> View for CorrelationTable<E> {
    type V = Map<u32, Option<E>>;

    closed spec fn view(&self) -> Map<u32, Option<E>> {
        self.entries@
    }
}

impl<E> CorrelationTable<E> {
    /// A table with nothing in flight.
    pub fn new() -> (table: Self)
        ensures
            table@ == Map::<u32, Option<E>>::empty(),
    {
        CorrelationTable { entries: HashMap::new() }
    }

    /// Whether nothing is in flight.
    pub fn is_empty(&self) -> (empty: bool)
        ensures
            empty == self@.is_empty(),
            empty == (self@ == Map::<u32, Option<E>>::empty()),
    {
        let empty = self.entries.is_empty();
        proof {
            if empty {
                assert(self@ =~= Map::<u32, Option<E>>::empty());
            }
        }
        empty
    }

    /// How many headers are in flight.
    pub fn len(&self) -> (n: usize)
        ensures
            n == self@.len(),
    {
        self.entries.len()
    }

    /// Whether `header` is in flight, reserved or registered.
    pub fn contains(&self, header: u32) -> (present: bool)
        ensures
            present == self@.contains_key(header),
    {
        self.entries.contains_key(&header)
    }

    /// Reserves `header` if it is free. Check and reservation are one step.
    pub fn try_claim(&mut self, header: u32) -> (won: bool)
        ensures
            won == !old(self)@.contains_key(header),
            (final(self)@, won) == claimed(old(self)@, header),
    {
        if self.entries.contains_key(&header) {
            false
        } else {
            self.entries.insert(header, None);
            true
        }
    }

    /// Puts `endpoint` under `header`, in place of whatever was there.
    pub fn register(&mut self, header: u32, endpoint: E)
        ensures
            final(self)@ == old(self)@.insert(header, Some(endpoint)),
    {
        self.entries.insert(header, Some(endpoint));
    }

    /// Routes a report: the registrant of `header`, if there is one, is
    /// handed out together with the report and its entry leaves the table.
    /// Otherwise the table stays as it was.
    pub fn resolve(&mut self, header: u32, frame: [u8; 20]) -> (out: Resolution<E>)
        ensures
            final(self)@ == resolved(old(self)@, header),
            has_registrant(old(self)@, header) ==> out == (Resolution::Delivered {
                endpoint: old(self)@[header]->Some_0,
                frame,
            }),
            !has_registrant(old(self)@, header) ==> out == Resolution::<E>::Unmatched,
    {
        let registered = match self.entries.get(&header) {
            Some(Some(_)) => true,
            _ => false,
        };
        if registered {
            match self.entries.remove(&header) {
                Some(Some(endpoint)) => Resolution::Delivered { endpoint, frame },
                _ => Resolution::Unmatched,
            }
        } else {
            Resolution::Unmatched
        }
    }

    /// Takes `header` out of the table, whatever stood under it.
    pub fn remove(&mut self, header: u32)
        ensures
            final(self)@ == old(self)@.remove(header),
    {
        self.entries.remove(&header);
    }
}

/// Mutual exclusion. A claim that succeeds shuts out every later claim of
/// the same header, while the entry is reserved and after an endpoint was
/// registered under it; a failed claim changes nothing.
pub proof fn lemma_claim_is_exclusive<E>(m: Map<u32, Option<E>>, header: u32, endpoint: E)
    ensures
        claimed(m, header).1 ==> !claimed(claimed(m, header).0, header).1,
        claimed(m, header).1 ==> !claimed(
            claimed(m, header).0.insert(header, Some(endpoint)),
            header,
        ).1,
        !claimed(m, header).1 ==> claimed(m, header).0 == m,
        claimed(m, header).1 <==> !m.contains_key(header),
{
}

/// A claim touches no header but its own.
pub proof fn lemma_claim_leaves_others<E>(m: Map<u32, Option<E>>, header: u32, other: u32)
    requires
        other != header,
    ensures
        claimed(m, header).0.contains_key(other) == m.contains_key(other),
        m.contains_key(other) ==> claimed(m, header).0[other] == m[other],
{
}

/// Delivery happens once. After a report was routed to the registrant of
/// its header, the entry is gone: a second report with the same header
/// finds nobody and leaves the table as it is.
pub proof fn lemma_delivered_once<E>(m: Map<u32, Option<E>>, header: u32)
    requires
        has_registrant(m, header),
    ensures
        !resolved(m, header).contains_key(header),
        !has_registrant(resolved(m, header), header),
        resolved(resolved(m, header), header) == resolved(m, header),
        claimed(resolved(m, header), header).1,
{
}

/// A report without a registrant changes nothing, and routing a report
/// never touches the entry of another header.
pub proof fn lemma_unmatched_is_inert<E>(m: Map<u32, Option<E>>, header: u32, other: u32)
    ensures
        !has_registrant(m, header) ==> resolved(m, header) == m,
        other != header ==> resolved(m, header).contains_key(other) == m.contains_key(other),
        other != header && m.contains_key(other) ==> resolved(m, header)[other] == m[other],
{
}

} // verus!
