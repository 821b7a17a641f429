//! The records that the ticket store keeps.

use vstd::prelude::*;
use crate::store::TicketId;

verus! {

/// Where a ticket stands in its life.
#[derive(Debug, Clone, Copy, PartialEq, Eq, Structural)]
pub enum Status {
    ToDo,
    InProgress,
    Done,
}

/// A ticket that the store has accepted and given an id.
#[derive(Debug, PartialEq, Eq)]
pub struct Ticket {
    pub id: TicketId,
    pub title: String,
    pub description: String,
    pub status: Status,
}

impl Clone for Ticket {
    fn clone(&self) -> (r: Self)
        ensures
            r == *self,
    {
        Ticket {
            id: self.id,
            title: self.title.clone(),
            description: self.description.clone(),
            status: self.status,
        }
    }
}

/// What a client hands in to open a ticket: everything but the id and status.
#[derive(Debug, PartialEq, Eq)]
pub struct TicketDraft {
    pub title: String,
    pub description: String,
}

impl Clone for TicketDraft {
    fn clone(&self) -> (r: Self)
        ensures
            r == *self,
    {
        TicketDraft { title: self.title.clone(), description: self.description.clone() }
    }
}

} // verus!
