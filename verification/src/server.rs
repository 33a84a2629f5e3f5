//! The registry of live connections: it gives each connection its number,
//! keeps the identity and the handle of every connected client, and works out
//! who is to receive each announcement and each relayed message.

use std::collections::HashMap;
use vstd::prelude::*;
use vstd::std_specs::iter::IteratorSpec;
use crate::envelope::{
    connect_envelope, connect_text, disconnect_envelope, disconnect_text, stamp_envelope,
    stamped_text,
};
use crate::error::RelayError;

verus! {

/// A text that the registry pushes to one session, to be written to its peer.
#[derive(Debug)]
pub struct SendMessageRequest(pub String);

/// A session asks to join: the handle through which it can be reached, and
/// the identity that its client proved.
#[derive(Debug)]
pub struct Connect<H> {
    pub addr: H,
    pub client_id: String,
}

/// A session has ended.
#[derive(Debug)]
pub struct Disconnect {
    pub id: usize,
}

/// A session hands on a text of its client for the other clients.
#[derive(Debug)]
pub struct BroadcastRequest {
    /// The number of the session that sends.
    pub id: usize,
    /// The text as the client sent it.
    pub msg: String,
}

/// A connected client as the registry keeps it.
#[derive(Debug)]
pub struct Client<H> {
    pub client_id: String,
    pub addr: H,
}

/// One push that a registry operation calls for: the message, and the number
/// of the connection whose handle is to carry it.
#[derive(Debug)]
pub struct Delivery {
    pub to: usize,
    pub message: SendMessageRequest,
}

/// The registry as a mathematical value: the connected clients by number, and
/// the last number given out.
pub struct RegistryModel<H> {
    pub sessions: Map<usize, Client<H>>,
    pub next_id: usize,
}

impl<H> RegistryModel<H> {
    /// Every number in use was given out, and none is zero: a number that is
    /// yet to be given out belongs to nobody.
    pub open spec fn wf(self) -> bool {
        &&& self.sessions.dom().finite()
        &&& forall|id: usize| #[trigger]
            self.sessions.contains_key(id) ==> 1 <= id <= self.next_id
    }

    /// The registry before anyone connected.
    pub open spec fn empty() -> Self {
        RegistryModel { sessions: Map::empty(), next_id: 0 }
    }

    /// The number that the next connection gets.
    pub open spec fn upcoming(self) -> usize {
        (self.next_id + 1) as usize
    }

    /// The registry once `client` has joined.
    pub open spec fn joined(self, client: Client<H>) -> Self {
        RegistryModel {
            sessions: self.sessions.insert(self.upcoming(), client),
            next_id: self.upcoming(),
        }
    }

    /// The registry once the connection `id` has left, if it was there.
    pub open spec fn left(self, id: usize) -> Self {
        RegistryModel { sessions: self.sessions.remove(id), next_id: self.next_id }
    }

    /// The numbers of all connections but `skip_id`.
    pub open spec fn peers_of(self, skip_id: usize) -> Set<usize> {
        self.sessions.dom().remove(skip_id)
    }
}

/// The deliveries carry `text`, one to each connection of `to` and to no
/// other.
pub open spec fn fans_out(deliveries: Seq<Delivery>, to: Set<usize>, text: Seq<char>) -> bool {
    &&& forall|i: int|
        0 <= i < deliveries.len() ==> (#[trigger] deliveries[i]).message.0@ == text && to.contains(
            deliveries[i].to,
        )
    &&& forall|i: int, j: int|
        0 <= i < j < deliveries.len() ==> (#[trigger] deliveries[i]).to != (
        #[trigger] deliveries[j]).to
    &&& forall|id: usize| #[trigger] to.contains(id) ==> delivered(deliveries, id)
}

/// Whether one of the deliveries goes to `id`.
pub open spec fn delivered(deliveries: Seq<Delivery>, id: usize) -> bool {
    exists|k: int| 0 <= k < deliveries.len() && (#[trigger] deliveries[k]).to == id
}

/// Whether `id` stands among the first `n` of `ids`.
spec fn listed(ids: Seq<&usize>, n: int, id: usize) -> bool {
    exists|j: int| 0 <= j < n && *(#[trigger] ids[j]) == id
}

/// The deliveries carry the announcement to all of `to` where it could be
/// written, and there are none where it could not.
pub open spec fn announced(deliveries: Seq<Delivery>, to: Set<usize>, text: Option<Seq<char>>) -> bool {
    match text {
        Some(text) => fans_out(deliveries, to, text),
        None => deliveries.len() == 0,
    }
}

/// The registry: the one owner of the set of live connections.
pub struct EventServer<H> {
    sessions: HashMap<usize, Client<H>>,
    next_id: usize,
}

impl<H> View for EventServer<H> {
    type V = RegistryModel<H>;

    closed spec fn view(&self) -> RegistryModel<H> {
        RegistryModel { sessions: self.sessions@, next_id: self.next_id }
    }
}

impl<H> EventServer<H> {
    /// A registry without connections, which has given out no number yet.
    pub fn new() -> (server: EventServer<H>)
        ensures
            server@ == RegistryModel::<H>::empty(),
            server@.wf(),
    {
        EventServer { sessions: HashMap::new(), next_id: 0 }
    }

    /// One delivery of `message` for every connection but `skip_id`. The
    /// order in which they stand is not fixed.
    pub fn broadcast(&self, message: &str, skip_id: usize) -> (deliveries: Vec<Delivery>)
        ensures
            fans_out(deliveries@, self@.peers_of(skip_id), message@),
    {
        let mut deliveries: Vec<Delivery> = Vec::new();
        let keys = self.sessions.keys();
        let ghost ids: Seq<&usize> = keys.remaining();
        let ghost mut done: int = 0;
        for id in it: keys
            invariant
                it.seq() == ids,
                it.index() == done,
                ids.unref().to_set() == self@.sessions.dom(),
                ids.no_duplicates(),
                forall|k: int|
                    0 <= k < deliveries.len() ==> (#[trigger] deliveries[k]).message.0@ == message@
                        && deliveries[k].to != skip_id && listed(
                        it.seq(),
                        it.index(),
                        deliveries[k].to,
                    ),
                forall|j: int|
                    0 <= j < it.index() && *(#[trigger] it.seq()[j]) != skip_id ==> delivered(
                        deliveries@,
                        *it.seq()[j],
                    ),
                forall|k1: int, k2: int|
                    0 <= k1 < k2 < deliveries.len() ==> (#[trigger] deliveries[k1]).to != (
                    #[trigger] deliveries[k2]).to,
        {
            let ghost before = deliveries@;
            let ghost at = it.index();
            if *id != skip_id {
                deliveries.push(
                    Delivery { to: *id, message: SendMessageRequest(message.to_owned()) },
                );
                assert(deliveries@[before.len() as int].to == *id);
            }
            proof {
                assert forall|k: int| 0 <= k < deliveries.len() implies listed(
                    it.seq(),
                    at + 1,
                    (#[trigger] deliveries[k]).to,
                ) by {
                    if k < before.len() {
                        assert(deliveries[k] == before[k]);
                        let j = choose|j: int| 0 <= j < at && *it.seq()[j] == before[k].to;
                        assert(0 <= j < at + 1 && *it.seq()[j] == deliveries[k].to);
                    } else {
                        assert(0 <= at < at + 1 && *it.seq()[at] == deliveries[k].to);
                    }
                }
                assert forall|j: int|
                    0 <= j < at + 1 && *(#[trigger] it.seq()[j]) != skip_id implies delivered(
                    deliveries@,
                    *it.seq()[j],
                ) by {
                    if j < at {
                        let k = choose|k: int|
                            0 <= k < before.len() && before[k].to == *it.seq()[j];
                        assert(deliveries@[k] == before[k]);
                    } else {
                        assert(deliveries@[before.len() as int].to == *it.seq()[j]);
                    }
                }
                assert forall|k1: int, k2: int| 0 <= k1 < k2 < deliveries.len() implies (
                #[trigger] deliveries[k1]).to != (#[trigger] deliveries[k2]).to by {
                    assert(deliveries[k1] == before[k1]);
                    if k2 < before.len() {
                        assert(deliveries[k2] == before[k2]);
                    } else {
                        let j = choose|j: int| 0 <= j < at && *it.seq()[j] == before[k1].to;
                        assert(it.seq()[j] != it.seq()[at]);
                    }
                }
                done = at + 1;
            }
        }
        proof {
            let to = self@.peers_of(skip_id);
            assert(done == ids.len());
            assert forall|i: int| 0 <= i < deliveries.len() implies to.contains(
                (#[trigger] deliveries[i]).to,
            ) by {
                let j = choose|j: int| 0 <= j < done && *ids[j] == deliveries[i].to;
                assert(ids.unref()[j] == deliveries[i].to);
                assert(ids.unref().to_set().contains(deliveries[i].to));
            }
            assert forall|id: usize| #[trigger] to.contains(id) implies delivered(
                deliveries@,
                id,
            ) by {
                assert(ids.unref().to_set().contains(id));
                let j = choose|j: int| 0 <= j < ids.unref().len() && ids.unref()[j] == id;
                assert(*ids[j] == id);
                assert(delivered(deliveries@, *ids[j]));
            }
        }
        deliveries
    }

    /// How many connections are live.
    pub fn len(&self) -> (count: usize)
        ensures
            count == self@.sessions.len(),
    {
        self.sessions.len()
    }

    /// The last number given out; 0 before the first connection.
    pub fn next_id(&self) -> (id: usize)
        ensures
            id == self@.next_id,
    {
        self.next_id
    }

    /// The client connected under `id`, if there is one.
    pub fn client(&self, id: usize) -> (found: Option<&Client<H>>)
        ensures
            match found {
                Some(client) => self@.sessions.contains_key(id) && *client == self@.sessions[id],
                None => !self@.sessions.contains_key(id),
            },
    {
        self.sessions.get(&id)
    }

    /// Takes a new connection in at the second `now`: gives it the number
    /// after the last one given out, keeps its identity and handle under that
    /// number, and announces it to every connection that was there before.
    pub fn connect_at(&mut self, msg: Connect<H>, now: u64) -> (res: (usize, Vec<Delivery>))
        requires
            old(self)@.wf(),
            old(self)@.next_id < usize::MAX,
        ensures
            res.0 == old(self)@.next_id + 1,
            final(self)@ == old(self)@.joined(Client { client_id: msg.client_id, addr: msg.addr }),
            final(self)@.wf(),
            announced(res.1@, old(self)@.sessions.dom(), connect_text(msg.client_id@, now)),
    {
        let envelope = connect_envelope(msg.client_id.as_str(), now);
        let id = self.next_id + 1;
        self.next_id = id;
        self.sessions.insert(id, Client { client_id: msg.client_id, addr: msg.addr });
        assert(self@.peers_of(id) == old(self)@.sessions.dom());
        let deliveries = match envelope {
            Some(text) => self.broadcast(text.as_str(), id),
            None => Vec::new(),
        };
        (id, deliveries)
    }

    /// Takes a new connection in at the second that the system clock shows.
    pub fn connect(&mut self, msg: Connect<H>) -> (res: (usize, Vec<Delivery>))
        requires
            old(self)@.wf(),
            old(self)@.next_id < usize::MAX,
        ensures
            res.0 == old(self)@.next_id + 1,
            final(self)@ == old(self)@.joined(Client { client_id: msg.client_id, addr: msg.addr }),
            final(self)@.wf(),
            exists|now: u64|
                announced(
                    res.1@,
                    old(self)@.sessions.dom(),
                    #[trigger] connect_text(msg.client_id@, now),
                ),
    {
        let now = epoch_seconds(unix_seconds());
        self.connect_at(msg, now)
    }

    /// Lets the connection `id` go at the second `now`. Where the registry
    /// holds it, the remaining connections are told; where it does not, as
    /// after an earlier disconnect of the same number, nothing changes and
    /// nobody is told.
    pub fn disconnect_at(&mut self, msg: Disconnect, now: u64) -> (deliveries: Vec<Delivery>)
        requires
            old(self)@.wf(),
        ensures
            final(self)@ == old(self)@.left(msg.id),
            final(self)@.wf(),
            old(self)@.sessions.contains_key(msg.id) ==> announced(
                deliveries@,
                old(self)@.peers_of(msg.id),
                disconnect_text(old(self)@.sessions[msg.id].client_id@, now),
            ),
            !old(self)@.sessions.contains_key(msg.id) ==> deliveries@.len() == 0 && final(self)@
                == old(self)@,
    {
        match self.sessions.remove(&msg.id) {
            Some(client) => {
                assert(self@.peers_of(msg.id) == old(self)@.peers_of(msg.id));
                match disconnect_envelope(client.client_id.as_str(), now) {
                    Some(text) => self.broadcast(text.as_str(), msg.id),
                    None => Vec::new(),
                }
            },
            None => {
                assert(self@.sessions == old(self)@.sessions);
                Vec::new()
            },
        }
    }

    /// Lets the connection `id` go at the second that the system clock shows.
    pub fn disconnect(&mut self, msg: Disconnect) -> (deliveries: Vec<Delivery>)
        requires
            old(self)@.wf(),
        ensures
            final(self)@ == old(self)@.left(msg.id),
            final(self)@.wf(),
            old(self)@.sessions.contains_key(msg.id) ==> exists|now: u64|
                announced(
                    deliveries@,
                    old(self)@.peers_of(msg.id),
                    #[trigger] disconnect_text(old(self)@.sessions[msg.id].client_id@, now),
                ),
            !old(self)@.sessions.contains_key(msg.id) ==> deliveries@.len() == 0 && final(self)@
                == old(self)@,
    {
        let now = epoch_seconds(unix_seconds());
        self.disconnect_at(msg, now)
    }

    /// Relays a client's text to every connection but its sender. The text
    /// must be a JSON object; it goes out with its `client_id` field set to
    /// the identity under which the sender connected. A request from a number
    /// that the registry does not hold, or with a text that is no JSON
    /// object, is answered with the error and relayed to nobody.
    pub fn broadcast_request(&self, msg: &BroadcastRequest) -> (res: Result<
        Vec<Delivery>,
        RelayError,
    >)
        ensures
            match res {
                Ok(deliveries) => self@.sessions.contains_key(msg.id) && relayed(
                    deliveries@,
                    self@.peers_of(msg.id),
                    stamped_text(msg.msg@, self@.sessions[msg.id].client_id@),
                ),
                Err(e) => if self@.sessions.contains_key(msg.id) {
                    e == RelayError::MalformedEnvelope && stamped_text(
                        msg.msg@,
                        self@.sessions[msg.id].client_id@,
                    ) is None
                } else {
                    e == RelayError::UnknownSender
                },
            },
    {
        match self.sessions.get(&msg.id) {
            None => Err(RelayError::UnknownSender),
            Some(sender) => {
                match stamp_envelope(msg.msg.as_str(), sender.client_id.as_str()) {
                    Ok(text) => Ok(self.broadcast(text.as_str(), msg.id)),
                    Err(e) => Err(e),
                }
            },
        }
    }
}

/// The deliveries carry the stamped text, which exists, to all of `to`.
pub open spec fn relayed(deliveries: Seq<Delivery>, to: Set<usize>, text: Option<Seq<char>>) -> bool {
    text is Some && fans_out(deliveries, to, text->Some_0)
}

/// The second that a clock reading stands for: a clock that is set before
/// the Unix epoch reads as the epoch itself.
pub fn epoch_seconds(reading: Option<u64>) -> (seconds: u64)
    ensures
        seconds == match reading {
            Some(seconds) => seconds,
            None => 0,
        },
{
    match reading {
        Some(seconds) => seconds,
        None => 0,
    }
}

/// `std::time::SystemTime::now`, taken as whole seconds since
/// `std::time::UNIX_EPOCH`; nothing where the clock stands before the epoch.
/// Nothing is claimed of the reading.
#[verifier::external_body]
fn unix_seconds() -> Option<u64> {
    std::time::SystemTime::now().duration_since(std::time::UNIX_EPOCH).ok().map(|d| d.as_secs())
}

} // verus!
