//! A client of a ticket store that runs elsewhere and answers over channels,
//! and the server's handling of each request.

use vstd::prelude::*;
use std::sync::mpsc::{Receiver, Sender};
use crate::data::{Status, Ticket, TicketDraft};
use crate::store::{ticket_of, TicketId, TicketStore};

verus! {

#[verifier::external_type_specification]
#[verifier::external_body]
#[verifier::reject_recursive_types(T)]
pub struct ExSender<T>(std::sync::mpsc::Sender<T>);

#[verifier::external_type_specification]
#[verifier::external_body]
#[verifier::reject_recursive_types(T)]
pub struct ExReceiver<T>(std::sync::mpsc::Receiver<T>);

/// `Sender::clone`: another sending half of the same channel. Nothing is
/// stated of it, since the channel is opaque.
pub assume_specification<T>[<Sender<T> as Clone>::clone](sender: &Sender<T>) -> Sender<T>;

/// `std::sync::mpsc::channel`: a new channel, as its sending and receiving
/// halves. Nothing is stated of them: they are opaque handles.
#[verifier::external_body]
fn channel<T>() -> (Sender<T>, Receiver<T>) {
    std::sync::mpsc::channel()
}

/// `Sender::send`: hands `value` to the channel; the result is `true` when
/// the channel took it and `false` when its receiver is gone. Which of the two
/// happens depends on another thread, so nothing is stated of it.
#[verifier::external_body]
fn send<T>(sender: &Sender<T>, value: T) -> bool {
    sender.send(value).is_ok()
}

/// `Receiver::recv`: waits for the next value sent on the channel; `None`
/// when every sender is gone and nothing is left. What arrives depends on
/// other threads, so nothing is stated of it.
#[verifier::external_body]
fn receive<T>(receiver: &Receiver<T>) -> Option<T> {
    receiver.recv().ok()
}

/// A request to the server, with the channel on which it is to answer.
#[allow(inconsistent_fields)]
pub enum Command {
    Insert { draft: TicketDraft, response_channel: Sender<TicketId> },
    Get { id: TicketId, response_channel: Sender<Option<Ticket>> },
}

/// The request that files `draft` and asks for the answer on
/// `response_channel`.
pub fn insert_request(draft: TicketDraft, response_channel: Sender<TicketId>) -> (c: Command)
    ensures
        c == (Command::Insert { draft, response_channel }),
{
    Command::Insert { draft, response_channel }
}

/// The request that asks for the ticket filed under `id`, to be answered on
/// `response_channel`.
pub fn get_request(id: TicketId, response_channel: Sender<Option<Ticket>>) -> (c: Command)
    ensures
        c == (Command::Get { id, response_channel }),
{
    Command::Get { id, response_channel }
}

/// What the server is to do after handling one event: send an answer on a
/// channel, or stop serving.
#[allow(inconsistent_fields)]
pub enum ServerAction {
    ReplyId { id: TicketId, response_channel: Sender<TicketId> },
    ReplyTicket { ticket: Option<Ticket>, response_channel: Sender<Option<Ticket>> },
    Shutdown,
}

/// The server's step. `event` is the next request, or `None` once no client
/// is left to send one. An insertion files the draft under the next id and
/// answers with that id; a lookup answers with a copy of the ticket, if any;
/// when no client is left the server stops.
pub fn server(store: &mut TicketStore, event: Option<Command>) -> (action: ServerAction)
    requires
        event matches Some(Command::Insert { .. }) ==> old(store).next_id() < u64::MAX,
    ensures
        match event {
            None => {
                &&& action is Shutdown
                &&& final(store).tickets() == old(store).tickets()
                &&& final(store).next_id() == old(store).next_id()
            },
            Some(Command::Insert { draft, response_channel }) => {
                &&& action matches ServerAction::ReplyId { id, response_channel: answer_to } && {
                    &&& id@ == old(store).next_id()
                    &&& answer_to == response_channel
                    &&& final(store).tickets() == old(store).tickets().insert(
                        id@,
                        ticket_of(id, draft),
                    )
                    &&& final(store).tickets().contains_key(id@)
                    &&& final(store).tickets()[id@].id == id
                    &&& final(store).tickets()[id@].title == draft.title
                    &&& final(store).tickets()[id@].description == draft.description
                    &&& final(store).tickets()[id@].status == Status::ToDo
                }
                &&& final(store).next_id() == old(store).next_id() + 1
            },
            Some(Command::Get { id, response_channel }) => {
                &&& action == (ServerAction::ReplyTicket {
                    ticket: if old(store).tickets().contains_key(id@) {
                        Some(old(store).tickets()[id@])
                    } else {
                        None
                    },
                    response_channel,
                })
                &&& final(store).tickets() == old(store).tickets()
                &&& final(store).next_id() == old(store).next_id()
            },
        },
{
    match event {
        Some(Command::Insert { draft, response_channel }) => {
            let id = store.add_ticket(draft);
            ServerAction::ReplyId { id, response_channel }
        },
        Some(Command::Get { id, response_channel }) => {
            let ticket = match store.get(id) {
                Some(t) => Some(t.clone()),
                None => None,
            };
            ServerAction::ReplyTicket { ticket, response_channel }
        },
        None => ServerAction::Shutdown,
    }
}

/// Why a request got no answer.
#[derive(Debug, Clone, Copy, PartialEq, Eq, Structural)]
pub enum ClientError {
    /// The server is gone: the request could not be delivered, or it was
    /// dropped without an answer.
    Disconnected,
}

/// What a client makes of the answer that came back on its reply channel:
/// the answer itself, or `Disconnected` when none came.
pub fn reply_result<T>(reply: Option<T>) -> (r: Result<T, ClientError>)
    ensures
        r == match reply {
            Some(answer) => Ok::<T, ClientError>(answer),
            None => Err(ClientError::Disconnected),
        },
{
    match reply {
        Some(answer) => Ok(answer),
        None => Err(ClientError::Disconnected),
    }
}

/// A handle on a running ticket store; clones talk to the same store.
#[derive(Clone)]
pub struct TicketStoreClient {
    pub sender: Sender<Command>,
}

impl TicketStoreClient {
    /// Asks the store to file `draft` and returns the id it was given.
    ///
    /// It sends one `Insert` request, built by `insert_request` from `draft`
    /// and the sending half of a channel made for this call, and answers with
    /// what comes back on that channel, through `reply_result`. When the
    /// request cannot be delivered it answers `Disconnected` without waiting.
    /// Which id comes back rests on the server thread, which Verus does not
    /// see; the server's side is stated by `server`.
    pub fn insert(&self, draft: TicketDraft) -> (r: Result<TicketId, ClientError>)
        ensures
            r matches Err(e) ==> e == ClientError::Disconnected,
    {
        let (res_sender, res_receiver) = channel();
        if !send(&self.sender, insert_request(draft, res_sender)) {
            return Err(ClientError::Disconnected);
        }
        reply_result(receive(&res_receiver))
    }

    /// Asks the store for a copy of the ticket filed under `id`.
    ///
    /// It sends one `Get` request, built by `get_request` from `id` and the
    /// sending half of a channel made for this call, and answers with what
    /// comes back on that channel, through `reply_result`. When the request
    /// cannot be delivered it answers `Disconnected` without waiting. Which
    /// ticket comes back rests on the server thread, which Verus does not
    /// see; the server's side is stated by `server`.
    pub fn get(&self, id: TicketId) -> (r: Result<Option<Ticket>, ClientError>)
        ensures
            r matches Err(e) ==> e == ClientError::Disconnected,
    {
        let (res_sender, res_receiver) = channel();
        if !send(&self.sender, get_request(id, res_sender)) {
            return Err(ClientError::Disconnected);
        }
        reply_result(receive(&res_receiver))
    }
}

} // verus!
