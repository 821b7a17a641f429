//! A store that hands out consecutive ids and keeps tickets by id.

use vstd::prelude::*;
use std::collections::BTreeMap;
use crate::data::{Status, Ticket, TicketDraft};

verus! {

broadcast use vstd::std_specs::btree::group_btree_axioms;

/// The id the store gave a ticket.
#[derive(Debug, Clone, Copy, PartialEq, Eq, Structural, Hash, PartialOrd, Ord)]
pub struct TicketId(u64);

impl View for TicketId {
    type V = u64;

    closed spec fn view(&self) -> u64 {
        self.0
    }
}

impl TicketId {
    /// Ids are equal exactly when their numbers are.
    pub proof fn lemma_view_injective(a: TicketId, b: TicketId)
        ensures
            a@ == b@ <==> a == b,
    {
    }
}

/// The ticket that the store makes of `draft` under the id numbered `id`.
pub open spec fn ticket_of(id: TicketId, draft: TicketDraft) -> Ticket {
    Ticket { id, title: draft.title, description: draft.description, status: Status::ToDo }
}

/// Tickets by id, and the counter that numbers the next one.
pub struct TicketStore {
    tickets: BTreeMap<u64, Ticket>,
    counter: u64,
}

impl TicketStore {
    /// The tickets held, by the number of their id.
    pub closed spec fn tickets(&self) -> Map<u64, Ticket> {
        self.tickets@
    }

    /// The number that the next ticket's id will carry.
    pub closed spec fn next_id(&self) -> u64 {
        self.counter
    }

    /// Every ticket is filed under the number of its own id, and every
    /// number in use is below the counter.
    #[verifier::type_invariant]
    closed spec fn well_formed(&self) -> bool {
        forall|k: u64| #[trigger] self.tickets@.contains_key(k) ==> k < self.counter
            && self.tickets@[k].id@ == k
    }

    pub fn new() -> (r: Self)
        ensures
            r.tickets() == Map::<u64, Ticket>::empty(),
            r.next_id() == 0,
    {
        TicketStore { tickets: BTreeMap::new(), counter: 0 }
    }

    /// Whether another ticket can be numbered.
    pub fn can_add(&self) -> (r: bool)
        ensures
            r == (self.next_id() < u64::MAX),
    {
        self.counter < u64::MAX
    }

    pub fn add_ticket(&mut self, ticket: TicketDraft) -> (id: TicketId)
        requires
            old(self).next_id() < u64::MAX,
        ensures
            id@ == old(self).next_id(),
            !old(self).tickets().contains_key(id@),
            final(self).next_id() == old(self).next_id() + 1,
            final(self).tickets() == old(self).tickets().insert(id@, ticket_of(id, ticket)),
            final(self).tickets().contains_key(id@),
            final(self).tickets()[id@].id == id,
            final(self).tickets()[id@].title == ticket.title,
            final(self).tickets()[id@].description == ticket.description,
            final(self).tickets()[id@].status == Status::ToDo,
    {
        proof {
            use_type_invariant(&*self);
        }
        let id = TicketId(self.counter);
        let ticket = Ticket {
            id,
            title: ticket.title,
            description: ticket.description,
            status: Status::ToDo,
        };
        let mut tickets = BTreeMap::new();
        std::mem::swap(&mut tickets, &mut self.tickets);
        tickets.insert(id.0, ticket);
        *self = TicketStore { tickets, counter: self.counter + 1 };
        id
    }

    pub fn get(&self, id: TicketId) -> (r: Option<&Ticket>)
        ensures
            r == (if self.tickets().contains_key(id@) {
                Some(&self.tickets()[id@])
            } else {
                None
            }),
            r matches Some(t) ==> t.id == id,
    {
        proof {
            use_type_invariant(self);
        }
        self.tickets.get(&id.0)
    }
}

/// A read gives back what a write wrote: once `add_ticket` has filed `draft`
/// under `id`, looking `id` up finds the ticket made of it, and every other id
/// looks up as before.
pub proof fn lemma_get_after_add(
    before: TicketStore,
    after: TicketStore,
    draft: TicketDraft,
    id: TicketId,
    other: TicketId,
)
    requires
        id@ == before.next_id(),
        after.tickets() == before.tickets().insert(id@, ticket_of(id, draft)),
    ensures
        after.tickets().contains_key(id@),
        after.tickets()[id@].id == id,
        after.tickets()[id@].title == draft.title,
        after.tickets()[id@].description == draft.description,
        after.tickets()[id@].status == Status::ToDo,
        other != id ==> after.tickets().contains_key(other@) == before.tickets().contains_key(
            other@,
        ),
        other != id && before.tickets().contains_key(other@) ==> after.tickets()[other@]
            == before.tickets()[other@],
{
    if other != id {
        TicketId::lemma_view_injective(other, id);
    }
}

/// Two tickets added one after the other get different ids, and the second
/// id is one past the first.
pub proof fn lemma_ids_distinct(
    first_store: TicketStore,
    second_store: TicketStore,
    first: TicketId,
    second: TicketId,
)
    requires
        first@ == first_store.next_id(),
        second_store.next_id() == first_store.next_id() + 1,
        second@ == second_store.next_id(),
    ensures
        first != second,
        second@ == first@ + 1,
{
}

} // verus!
