//! Connecting a client and broadcasting a notification to every client.
//!
//! A broadcast works on a snapshot of the registry. It makes one attempt
//! for each session in the snapshot and never waits; a failed attempt is
//! reported and otherwise ignored, and it neither stops the attempts that
//! follow nor takes the session out of the registry. That is left to the
//! session's own teardown.

use crate::trusted::channel::{is_lower_hex, new_session_id, send_text};
use crate::ws::clients::{ids_of, Client, Clients, Outbound};
use vstd::prelude::*;

verus! {

/// The outcome of one delivery attempt.
#[derive(Debug)]
pub struct Delivery {
    /// The session the attempt was made for.
    pub client_id: String,
    /// Whether the message was queued on the session's channel.
    pub delivered: bool,
}

/// The sessions that `report` lists, in its order.
pub open spec fn recipients(report: Seq<Delivery>) -> Seq<Seq<char>> {
    Seq::new(report.len(), |i: int| report[i].client_id@)
}

/// Registers a newly connected client under a fresh session id and returns
/// the id.
pub fn client_connected(clients: &mut Clients, sender: Outbound) -> (id: String)
    ensures
        final(clients)@ == old(clients)@.insert(id@, sender),
        id@.len() == 32,
        forall|i: int| 0 <= i < 32 ==> is_lower_hex(#[trigger] id@[i]),
{
    let id = new_session_id();
    clients.register(id.clone(), sender);
    id
}

/// Records what became of the attempt for the session `client_id`:
/// `attempt` is what the channel answered, or `None` where the session had
/// no handle and nothing was tried. Only a message that was queued counts
/// as delivered.
pub fn recorded(client_id: String, attempt: Option<bool>) -> (outcome: Delivery)
    ensures
        outcome.client_id == client_id,
        outcome.delivered == (attempt == Some(true)),
{
    let delivered = match attempt {
        Some(queued) => queued,
        None => false,
    };
    Delivery { client_id, delivered }
}

/// Makes the delivery attempt for one session. A session without a handle
/// gets no attempt and counts as not delivered.
pub fn deliver(client: &Client, msg: &str) -> (outcome: Delivery)
    ensures
        outcome.client_id@ == client.client_id@,
        client.sender is None ==> !outcome.delivered,
{
    let attempt = match &client.sender {
        Some(sender) => Some(send_text(sender, msg)),
        None => None,
    };
    recorded(client.client_id.clone(), attempt)
}

/// Sends `msg` to every session of a snapshot, in the snapshot's order.
///
/// Every session is attempted exactly once, whatever became of the attempts
/// before it.
pub fn broadcast(sessions: &Vec<Client>, msg: &str) -> (report: Vec<Delivery>)
    ensures
        recipients(report@) == ids_of(sessions@),
        forall|i: int|
            0 <= i < sessions@.len() && sessions@[i].sender is None ==> !(
            #[trigger] report@[i]).delivered,
{
    let mut report: Vec<Delivery> = Vec::new();
    let mut i: usize = 0;
    while i < sessions.len()
        invariant
            i <= sessions@.len(),
            report@.len() == i,
            forall|k: int|
                0 <= k < i ==> (#[trigger] report@[k]).client_id@ == sessions@[k].client_id@,
            forall|k: int|
                0 <= k < i && sessions@[k].sender is None ==> !(#[trigger] report@[k]).delivered,
        decreases sessions@.len() - i,
    {
        report.push(deliver(&sessions[i], msg));
        i += 1;
    }
    proof {
        assert(recipients(report@) =~= ids_of(sessions@));
    }
    report
}

/// Notifies every registered client of `msg`.
///
/// One attempt is made for each registered session and none for any other;
/// the registry itself is not changed.
pub fn send_message_to_clients(msg: String, clients: &Clients) -> (report: Vec<Delivery>)
    ensures
        recipients(report@) == clients.order(),
        clients.order().no_duplicates(),
        clients.order().to_set() == clients@.dom(),
        clients@.dom().finite(),
        report@.len() == clients@.dom().len(),
{
    let sessions = clients.snapshot();
    let report = broadcast(&sessions, msg.as_str());
    assert(report@.len() == recipients(report@).len());
    assert(sessions@.len() == ids_of(sessions@).len());
    report
}

} // verus!
