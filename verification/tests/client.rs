use exercises::client::{reply_result, ClientError, Command, TicketStoreClient};
use exercises::data::TicketDraft;
use exercises::store::TicketStore;
use std::sync::mpsc::channel;

#[test]
fn client_without_server_is_disconnected() {
    let (sender, receiver) = channel::<Command>();
    drop(receiver);
    let client = TicketStoreClient { sender };
    let draft = TicketDraft { title: "t".to_string(), description: "d".to_string() };
    assert_eq!(client.insert(draft).unwrap_err(), ClientError::Disconnected);
}

#[test]
fn lookup_without_server_is_disconnected() {
    let (sender, receiver) = channel::<Command>();
    drop(receiver);
    let client = TicketStoreClient { sender };
    let mut store = TicketStore::new();
    let id = store.add_ticket(TicketDraft { title: "t".to_string(), description: "d".to_string() });
    assert_eq!(client.clone().get(id).unwrap_err(), ClientError::Disconnected);
}

#[test]
fn reply_result_maps_answers_and_silence() {
    assert_eq!(reply_result(Some(5u8)), Ok(5u8));
    assert_eq!(reply_result::<u8>(None), Err(ClientError::Disconnected));
}

#[test]
fn requests_carry_their_arguments() {
    let (id_tx, id_rx) = channel();
    let draft = TicketDraft { title: "T".to_string(), description: "D".to_string() };
    match exercises::client::insert_request(draft.clone(), id_tx) {
        Command::Insert { draft: sent, response_channel } => {
            assert_eq!(sent, draft);
            let mut store = TicketStore::new();
            let id = store.add_ticket(draft.clone());
            response_channel.send(id).unwrap();
            assert_eq!(id_rx.recv().unwrap(), id);
        }
        Command::Get { .. } => panic!("an insertion request is an Insert"),
    }

    let mut store = TicketStore::new();
    let id = store.add_ticket(draft);
    let (t_tx, t_rx) = channel();
    match exercises::client::get_request(id, t_tx) {
        Command::Get { id: asked, response_channel } => {
            assert_eq!(asked, id);
            response_channel.send(None).unwrap();
            assert!(t_rx.recv().unwrap().is_none());
        }
        Command::Insert { .. } => panic!("a lookup request is a Get"),
    }
}
