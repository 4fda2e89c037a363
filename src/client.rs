//! The subscription reconciler: the topics wanted, the topics the server
//! confirmed, and the requests in flight, with what each event does to them.

use vstd::prelude::*;
use vstd::hash_map::HashMapWithView;
use vstd::string::*;

use crate::topic::{
    copy_topics, distinct, find_topic, insert_all, insert_all_within, insert_topic, normalize_stream,
    normalized, remove_all, remove_all_outside, remove_topic, topic_seq, topic_set,
};
use crate::stats::{rate_centi_spec, stats_report, StatsReport};
use crate::wire::{classify_text, json_has_member, json_member_i64, json_parses, ApiResponse, Inbound, Method, OutboundRequest};

verus! {

/// Endpoint of the test network.
pub const TESTNET_WS_BASE_URL: &'static str = "wss://testnet.binance.vision/ws";

/// Endpoint of the main network.
pub const MAINNET_WS_BASE_URL: &'static str = "wss://stream.binance.com:9443/ws";

/// What a request in flight asked for.
#[derive(Clone, Copy, Debug, PartialEq, Eq, Structural)]
pub enum RequestKind {
    Subscribe,
    Unsubscribe,
    ListServer,
}

/// A request in flight, as the reconciler sees it.
pub struct Pending {
    pub kind: RequestKind,
    pub topics: Seq<Seq<char>>,
}

/// A request as it goes out: method, topics in order, id.
pub struct Request {
    pub method: Method,
    pub topics: Seq<Seq<char>>,
    pub id: nat,
}

/// The method that carries a kind of request.
pub open spec fn method_of(k: RequestKind) -> Method {
    match k {
        RequestKind::Subscribe => Method::Subscribe,
        RequestKind::Unsubscribe => Method::Unsubscribe,
        RequestKind::ListServer => Method::ListSubscriptions,
    }
}

impl View for OutboundRequest {
    type V = Request;

    open spec fn view(&self) -> Request {
        Request { method: self.method, topics: topic_seq(self.topics@), id: self.id as nat }
    }
}

/// A request in flight, keyed by its id in the reconciler's table.
#[derive(Clone, Debug)]
pub enum PendingRequest {
    Subscribe(Vec<String>),
    Unsubscribe(Vec<String>),
    ListServer,
}

impl View for PendingRequest {
    type V = Pending;

    open spec fn view(&self) -> Pending {
        match self {
            PendingRequest::Subscribe(v) => Pending {
                kind: RequestKind::Subscribe,
                topics: topic_seq(v@),
            },
            PendingRequest::Unsubscribe(v) => Pending {
                kind: RequestKind::Unsubscribe,
                topics: topic_seq(v@),
            },
            PendingRequest::ListServer => Pending {
                kind: RequestKind::ListServer,
                topics: Seq::empty(),
            },
        }
    }
}

/// The state of the reconciler.
pub struct State {
    /// Topics the operator wants.
    pub desired: Set<Seq<char>>,
    /// Topics the server confirmed.
    pub active: Set<Seq<char>>,
    /// Requests in flight, by id.
    pub pending: Map<u64, Pending>,
    /// The id the next request gets.
    pub next_id: nat,
    /// Whether the operator asked to stop.
    pub shutdown: bool,
}

/// Every id in flight was handed out before.
pub open spec fn ids_fresh(s: State) -> bool {
    &&& 1 <= s.next_id <= u64::MAX
    &&& forall|k: u64| s.pending.contains_key(k) ==> k < s.next_id
}

/// Issues a request of a kind for topics under the next id.
pub open spec fn issue(s: State, kind: RequestKind, topics: Seq<Seq<char>>) -> (State, Request) {
    (
        State {
            pending: s.pending.insert(s.next_id as u64, Pending { kind, topics }),
            next_id: s.next_id + 1,
            ..s
        },
        Request { method: method_of(kind), topics, id: s.next_id },
    )
}

/// A subscribe command for a topic in normal form: a topic already desired
/// changes nothing; another becomes desired and a request for it goes out.
pub open spec fn subscribe_step(s: State, t: Seq<char>) -> (State, Option<Request>) {
    if s.desired.contains(t) {
        (s, None)
    } else {
        let (s2, q) = issue(State { desired: s.desired.insert(t), ..s }, RequestKind::Subscribe, seq![t]);
        (s2, Some(q))
    }
}

/// An unsubscribe command for a topic in normal form: a topic not desired
/// changes nothing; another stops being desired at once and a request goes
/// out.
pub open spec fn unsubscribe_step(s: State, t: Seq<char>) -> (State, Option<Request>) {
    if !s.desired.contains(t) {
        (s, None)
    } else {
        let (s2, q) = issue(State { desired: s.desired.remove(t), ..s }, RequestKind::Unsubscribe, seq![t]);
        (s2, Some(q))
    }
}

/// A query of the server's subscriptions.
pub open spec fn list_server_step(s: State) -> (State, Request) {
    issue(s, RequestKind::ListServer, Seq::empty())
}

/// The entry of the table that a response id names, if any.
pub open spec fn resolved_id(s: State, id: Option<i64>) -> Option<u64> {
    match id {
        Some(i) => if 0 <= i && s.pending.contains_key(i as u64) {
            Some(i as u64)
        } else {
            None
        },
        None => None,
    }
}

/// A response: an id not in flight changes nothing. Otherwise the entry
/// leaves the table; a rejection undoes the change to the desired topics,
/// a confirmation applies the change to the active ones. A confirmed
/// subscription counts as active only for topics still desired, since one
/// withdrawn meanwhile has an unsubscribe of its own; a rejected subscription
/// takes back the desire only for topics not active, since an active topic
/// was desired again when an unsubscribe of it was rejected.
pub open spec fn response_step(s: State, id: Option<i64>, failed: bool) -> State {
    match resolved_id(s, id) {
        None => s,
        Some(k) => {
            let p = s.pending[k];
            let ts = p.topics.to_set();
            let rest = State { pending: s.pending.remove(k), ..s };
            if failed {
                match p.kind {
                    RequestKind::Subscribe => State {
                        desired: s.desired.difference(ts.difference(s.active)),
                        ..rest
                    },
                    RequestKind::Unsubscribe => State { desired: s.desired.union(ts), ..rest },
                    RequestKind::ListServer => rest,
                }
            } else {
                match p.kind {
                    RequestKind::Subscribe => State {
                        active: s.active.union(ts.intersect(s.desired)),
                        ..rest
                    },
                    RequestKind::Unsubscribe => State { active: s.active.difference(ts), ..rest },
                    RequestKind::ListServer => rest,
                }
            }
        },
    }
}

/// A new connection: nothing is active or in flight any more, and one
/// subscribe request for every desired topic goes out, where there is one.
pub open spec fn resync_step(s: State, s2: State, q: Option<Request>) -> bool {
    &&& s2.desired == s.desired
    &&& s2.active == Set::<Seq<char>>::empty()
    &&& s2.shutdown == s.shutdown
    &&& if s.desired.is_empty() {
        &&& q is None
        &&& s2.pending == Map::<u64, Pending>::empty()
        &&& s2.next_id == s.next_id
    } else {
        &&& q matches Some(r)
        &&& r.method == Method::Subscribe
        &&& r.id == s.next_id
        &&& r.topics.no_duplicates()
        &&& r.topics.to_set() == s.desired
        &&& s2.pending == Map::<u64, Pending>::empty().insert(
            s.next_id as u64,
            Pending { kind: RequestKind::Subscribe, topics: r.topics },
        )
        &&& s2.next_id == s.next_id + 1
    }
}

/// A message count after one more message, held at the largest `u64`.
pub open spec fn counted(n: nat) -> nat {
    if n < u64::MAX {
        n + 1
    } else {
        n
    }
}

/// Whether a text frame takes the state `s` to `s2` with reaction `r`: no JSON
/// value is malformed and a value without an `id` member an event, neither of
/// which changes anything; a value with an `id` member is a response with that
/// id, where it is an integer, failed where an `error` member is there, and is
/// applied.
pub open spec fn text_handled(s: State, text: Seq<char>, s2: State, r: Reaction) -> bool {
    if !json_parses(text) {
        r is Malformed && s2 == s
    } else if !json_has_member(text, "id"@) {
        r is Event && s2 == s
    } else {
        let id = json_member_i64(text, "id"@);
        let failed = json_has_member(text, "error"@);
        &&& s2 == response_step(s, id, failed)
        &&& r matches Reaction::Resolved(resp, p)
        &&& resp.id == id
        &&& resp.failed == failed
        &&& match resolved_id(s, id) {
            Some(k) => p matches Some(e) && e@ == s.pending[k],
            None => p is None,
        }
    }
}

/// The view of an optional request.
pub open spec fn request_view(r: Option<OutboundRequest>) -> Option<Request> {
    match r {
        Some(q) => Some(q@),
        None => None,
    }
}

/// A command from the operator.
#[derive(Clone, Debug)]
pub enum WebSocketCommand {
    Subscribe(String),
    Unsubscribe(String),
    ListLocal,
    ListServer,
    Help,
    Quit,
}

/// A frame read from the connection.
#[derive(Clone, Debug)]
pub enum InboundFrame {
    Text(String),
    Binary(Vec<u8>),
    Ping(Vec<u8>),
    Pong(Vec<u8>),
    Close,
    /// The transport reported an error.
    Failed,
}

/// What the event loop is to do after an event.
#[derive(Clone, Debug)]
pub enum Reaction {
    /// Nothing to write.
    Idle,
    /// The topic was desired already; nothing was sent.
    AlreadyRequested(String),
    /// The topic was not desired; nothing was sent.
    NotDesired(String),
    /// Write this request.
    Send(OutboundRequest),
    /// Every request id has been handed out; nothing was sent or changed.
    Exhausted,
    /// Report the desired and active topics.
    ShowLocal,
    /// Report the command help.
    ShowHelp,
    /// Write a pong frame with this payload.
    Pong(Vec<u8>),
    /// A text frame that is no JSON value.
    Malformed,
    /// A message for the event decoder.
    Event,
    /// A response, with the request in flight that it resolved, if any.
    Resolved(ApiResponse, Option<PendingRequest>),
    /// Write a close frame and leave the event loop.
    Close,
    /// Leave the event loop.
    Stop,
}

/// The client of one streaming endpoint with subscriptions that change at
/// run time.
pub struct DynamicWebSocket {
    ws_url: String,
    next_request_id: u64,
    desired_subscriptions: Vec<String>,
    active_subscriptions: Vec<String>,
    pending_requests: HashMapWithView<u64, PendingRequest>,
    message_count: u64,
    shutdown_requested: bool,
}

impl View for DynamicWebSocket {
    type V = State;

    closed spec fn view(&self) -> State {
        State {
            desired: topic_set(self.desired_subscriptions@),
            active: topic_set(self.active_subscriptions@),
            pending: self.pending_requests@.map_values(|p: PendingRequest| p@),
            next_id: self.next_request_id as nat,
            shutdown: self.shutdown_requested,
        }
    }
}

impl DynamicWebSocket {
    /// The client's own invariant.
    pub closed spec fn wf(&self) -> bool {
        &&& distinct(self.desired_subscriptions@)
        &&& distinct(self.active_subscriptions@)
        &&& ids_fresh(self@)
    }

    /// The endpoint the client connects to.
    pub closed spec fn url(&self) -> Seq<char> {
        self.ws_url@
    }

    /// Text frames received on the current connection.
    pub closed spec fn received(&self) -> nat {
        self.message_count as nat
    }

    /// What the invariant says of the state.
    pub proof fn lemma_wf(&self)
        requires
            self.wf(),
        ensures
            ids_fresh(self@),
    {
    }

    /// A client for the main or the test network that wants the given topics,
    /// in normal form, with nothing active or in flight.
    pub fn new(use_testnet: bool, initial_subscriptions: Vec<String>) -> (r: Self)
        ensures
            r.wf(),
            r@.desired == topic_seq(initial_subscriptions@).map_values(|t: Seq<char>| normalized(t)).to_set(),
            r@.active == Set::<Seq<char>>::empty(),
            r@.pending == Map::<u64, Pending>::empty(),
            r@.next_id == 1,
            !r@.shutdown,
            r.received() == 0,
            r.url() == (if use_testnet { TESTNET_WS_BASE_URL@ } else { MAINNET_WS_BASE_URL@ }),
    {
        let ws_url = if use_testnet {
            String::from_str(TESTNET_WS_BASE_URL)
        } else {
            String::from_str(MAINNET_WS_BASE_URL)
        };
        let ghost lowered = topic_seq(initial_subscriptions@).map_values(|t: Seq<char>| normalized(t));
        let mut desired: Vec<String> = Vec::new();
        let mut i: usize = 0;
        while i < initial_subscriptions.len()
            invariant
                i <= initial_subscriptions@.len(),
                lowered == topic_seq(initial_subscriptions@).map_values(|t: Seq<char>| normalized(t)),
                distinct(desired@),
                topic_set(desired@) == lowered.take(i as int).to_set(),
            decreases initial_subscriptions@.len() - i,
        {
            let t = normalize_stream(initial_subscriptions[i].as_str());
            proof {
                assert(lowered.take(i as int + 1) =~= lowered.take(i as int).push(t@));
                lowered.take(i as int).lemma_push_to_set_commute(t@);
            }
            insert_topic(&mut desired, t);
            i = i + 1;
        }
        assert(lowered.take(i as int) =~= lowered);
        let r = DynamicWebSocket {
            ws_url,
            next_request_id: 1,
            desired_subscriptions: desired,
            active_subscriptions: Vec::new(),
            pending_requests: HashMapWithView::new(),
            message_count: 0,
            shutdown_requested: false,
        };
        assert(r@.pending =~= Map::<u64, Pending>::empty());
        assert(r@.active =~= Set::<Seq<char>>::empty());
        r
    }

    /// Hands out the next request id.
    fn next_id(&mut self) -> (id: u64)
        requires
            old(self)@.next_id < u64::MAX,
        ensures
            id == old(self)@.next_id,
            final(self)@ == (State { next_id: old(self)@.next_id + 1, ..old(self)@ }),
            final(self).desired_subscriptions == old(self).desired_subscriptions,
            final(self).active_subscriptions == old(self).active_subscriptions,
            final(self).pending_requests == old(self).pending_requests,
            final(self).ws_url == old(self).ws_url,
            final(self).message_count == old(self).message_count,
    {
        let id = self.next_request_id;
        self.next_request_id = self.next_request_id + 1;
        id
    }

    /// Records a request of a kind for topics under the next id and returns
    /// it for sending.
    fn issue_request(&mut self, kind: RequestKind, streams: Vec<String>) -> (r: OutboundRequest)
        requires
            old(self).wf(),
            old(self)@.next_id < u64::MAX,
            kind == RequestKind::ListServer ==> streams@.len() == 0,
        ensures
            final(self).wf(),
            (final(self)@, r@) == issue(old(self)@, kind, topic_seq(streams@)),
            final(self).url() == old(self).url(),
            final(self).received() == old(self).received(),
    {
        let id = self.next_id();
        let entry = match kind {
            RequestKind::Subscribe => PendingRequest::Subscribe(copy_topics(&streams)),
            RequestKind::Unsubscribe => PendingRequest::Unsubscribe(copy_topics(&streams)),
            RequestKind::ListServer => PendingRequest::ListServer,
        };
        let method = match kind {
            RequestKind::Subscribe => Method::Subscribe,
            RequestKind::Unsubscribe => Method::Unsubscribe,
            RequestKind::ListServer => Method::ListSubscriptions,
        };
        let ghost before = self.pending_requests@;
        self.pending_requests.insert(id, entry);
        proof {
            assert(topic_seq(streams@) =~= Seq::<Seq<char>>::empty() || kind != RequestKind::ListServer);
            assert(self.pending_requests@.map_values(|p: PendingRequest| p@) =~= before.map_values(
                |p: PendingRequest| p@,
            ).insert(id, Pending { kind, topics: topic_seq(streams@) }));
        }
        OutboundRequest { method, topics: streams, id }
    }

    /// Issues a subscribe request for the topics, unless there are none.
    fn send_subscribe_request(&mut self, streams: Vec<String>) -> (r: Option<OutboundRequest>)
        requires
            old(self).wf(),
            streams@.len() > 0 ==> old(self)@.next_id < u64::MAX,
        ensures
            final(self).wf(),
            final(self).url() == old(self).url(),
            final(self).received() == old(self).received(),
            if streams@.len() == 0 {
                r is None && final(self)@ == old(self)@
            } else {
                &&& r matches Some(q)
                &&& (final(self)@, q@) == issue(old(self)@, RequestKind::Subscribe, topic_seq(streams@))
            },
    {
        if streams.len() == 0 {
            return None;
        }
        Some(self.issue_request(RequestKind::Subscribe, streams))
    }

    /// Starts a new connection: nothing is active or in flight, the message
    /// count starts over, and every desired topic is asked for again in one
    /// subscribe request.
    pub fn on_connected(&mut self) -> (r: Option<OutboundRequest>)
        requires
            old(self).wf(),
        ensures
            final(self).wf(),
            if old(self)@.desired.is_empty() || old(self)@.next_id < u64::MAX {
                resync_step(old(self)@, final(self)@, request_view(r))
            } else {
                &&& r is None
                &&& final(self)@ == (State {
                    active: Set::<Seq<char>>::empty(),
                    pending: Map::<u64, Pending>::empty(),
                    ..old(self)@
                })
            },
            final(self).url() == old(self).url(),
            final(self).received() == 0,
    {
        self.active_subscriptions = Vec::new();
        self.pending_requests.clear();
        self.message_count = 0;
        let streams = copy_topics(&self.desired_subscriptions);
        proof {
            assert(self@.active =~= Set::<Seq<char>>::empty());
            assert(self@.pending =~= Map::<u64, Pending>::empty());
            assert(topic_seq(streams@).to_set() == self@.desired);
            if streams@.len() == 0 {
                assert(self@.desired =~= Set::<Seq<char>>::empty());
            } else {
                assert(topic_seq(streams@).contains(topic_seq(streams@)[0]));
                assert(self@.desired.contains(topic_seq(streams@)[0]));
            }
        }
        if self.next_request_id == u64::MAX && streams.len() > 0 {
            return None;
        }
        let r = self.send_subscribe_request(streams);
        r
    }

    /// Applies a response as `response_step` says: the entry it answers leaves
    /// the table; a rejection undoes the change to the desired topics, a
    /// confirmation applies the change to the active ones. Returns the entry,
    /// if the id named one.
    pub fn handle_api_response(&mut self, response: &ApiResponse) -> (r: Option<PendingRequest>)
        requires
            old(self).wf(),
        ensures
            final(self).wf(),
            final(self)@ == response_step(old(self)@, response.id, response.failed),
            final(self).url() == old(self).url(),
            final(self).received() == old(self).received(),
            match resolved_id(old(self)@, response.id) {
                Some(k) => r matches Some(p) && p@ == old(self)@.pending[k],
                None => r is None,
            },
    {
        let id = match response.id {
            Some(i) => i,
            None => return None,
        };
        if id < 0 {
            return None;
        }
        let key = id as u64;
        let ghost before = self.pending_requests@;
        let pending = match self.pending_requests.remove(&key) {
            Some(p) => p,
            None => return None,
        };
        proof {
            assert(self.pending_requests@.map_values(|p: PendingRequest| p@) =~= before.map_values(
                |p: PendingRequest| p@,
            ).remove(key));
        }
        if response.failed {
            match &pending {
                PendingRequest::Subscribe(streams) => {
                    remove_all_outside(&mut self.desired_subscriptions, streams, &self.active_subscriptions);
                },
                PendingRequest::Unsubscribe(streams) => {
                    insert_all(&mut self.desired_subscriptions, streams);
                },
                PendingRequest::ListServer => {},
            }
        } else {
            match &pending {
                PendingRequest::Subscribe(streams) => {
                    insert_all_within(&mut self.active_subscriptions, streams, &self.desired_subscriptions);
                },
                PendingRequest::Unsubscribe(streams) => {
                    remove_all(&mut self.active_subscriptions, streams);
                },
                PendingRequest::ListServer => {},
            }
        }
        Some(pending)
    }

    /// Carries out a command of the operator; `None` means the command source
    /// is closed, which asks for shutdown as `Quit` does.
    pub fn handle_command(&mut self, cmd: Option<WebSocketCommand>) -> (r: Reaction)
        requires
            old(self).wf(),
        ensures
            final(self).wf(),
            final(self).url() == old(self).url(),
            final(self).received() == old(self).received(),
            match cmd {
                Some(WebSocketCommand::Subscribe(raw)) => {
                    let t = normalized(raw@);
                    let (s2, q) = subscribe_step(old(self)@, t);
                    match q {
                        None => final(self)@ == old(self)@ && (r matches Reaction::AlreadyRequested(n) && n@ == t),
                        Some(q) => if old(self)@.next_id < u64::MAX {
                            final(self)@ == s2 && (r matches Reaction::Send(o) && o@ == q)
                        } else {
                            final(self)@ == old(self)@ && r is Exhausted
                        },
                    }
                },
                Some(WebSocketCommand::Unsubscribe(raw)) => {
                    let t = normalized(raw@);
                    let (s2, q) = unsubscribe_step(old(self)@, t);
                    match q {
                        None => final(self)@ == old(self)@ && (r matches Reaction::NotDesired(n) && n@ == t),
                        Some(q) => if old(self)@.next_id < u64::MAX {
                            final(self)@ == s2 && (r matches Reaction::Send(o) && o@ == q)
                        } else {
                            final(self)@ == old(self)@ && r is Exhausted
                        },
                    }
                },
                Some(WebSocketCommand::ListLocal) => final(self)@ == old(self)@ && r is ShowLocal,
                Some(WebSocketCommand::ListServer) => {
                    let (s2, q) = list_server_step(old(self)@);
                    if old(self)@.next_id < u64::MAX {
                        final(self)@ == s2 && (r matches Reaction::Send(o) && o@ == q)
                    } else {
                        final(self)@ == old(self)@ && r is Exhausted
                    }
                },
                Some(WebSocketCommand::Help) => final(self)@ == old(self)@ && r is ShowHelp,
                Some(WebSocketCommand::Quit) => final(self)@ == (State { shutdown: true, ..old(self)@ })
                    && r is Close,
                None => final(self)@ == (State { shutdown: true, ..old(self)@ }) && r is Stop,
            },
    {
        match cmd {
            Some(WebSocketCommand::Subscribe(raw)) => {
                let stream = normalize_stream(raw.as_str());
                match find_topic(&self.desired_subscriptions, &stream) {
                    Some(i) => {
                        assert(topic_seq(self.desired_subscriptions@)[i as int] == stream@);
                        return Reaction::AlreadyRequested(stream);
                    },
                    None => {},
                }
                if self.next_request_id == u64::MAX {
                    return Reaction::Exhausted;
                }
                insert_topic(&mut self.desired_subscriptions, copy_topic(&stream));
                let mut streams: Vec<String> = Vec::new();
                streams.push(stream);
                assert(topic_seq(streams@) =~= seq![normalized(raw@)]);
                Reaction::Send(self.issue_request(RequestKind::Subscribe, streams))
            },
            Some(WebSocketCommand::Unsubscribe(raw)) => {
                let stream = normalize_stream(raw.as_str());
                match find_topic(&self.desired_subscriptions, &stream) {
                    Some(i) => {
                        assert(topic_seq(self.desired_subscriptions@)[i as int] == stream@);
                    },
                    None => return Reaction::NotDesired(stream),
                }
                if self.next_request_id == u64::MAX {
                    return Reaction::Exhausted;
                }
                remove_topic(&mut self.desired_subscriptions, &stream);
                let mut streams: Vec<String> = Vec::new();
                streams.push(stream);
                assert(topic_seq(streams@) =~= seq![normalized(raw@)]);
                Reaction::Send(self.issue_request(RequestKind::Unsubscribe, streams))
            },
            Some(WebSocketCommand::ListLocal) => Reaction::ShowLocal,
            Some(WebSocketCommand::ListServer) => {
                if self.next_request_id == u64::MAX {
                    return Reaction::Exhausted;
                }
                let q = self.issue_request(RequestKind::ListServer, Vec::new());
                assert(topic_seq(Seq::<String>::empty()) =~= Seq::<Seq<char>>::empty());
                Reaction::Send(q)
            },
            Some(WebSocketCommand::Help) => Reaction::ShowHelp,
            Some(WebSocketCommand::Quit) => {
                self.shutdown_requested = true;
                Reaction::Close
            },
            None => {
                self.shutdown_requested = true;
                Reaction::Stop
            },
        }
    }

    /// Takes a text frame: it counts as a message. A frame that is no JSON
    /// value is reported and dropped; a value without an `id` member is an
    /// event for the decoder; a value with one is a response, which is
    /// applied.
    pub fn handle_text_message(&mut self, text: &str) -> (r: Reaction)
        requires
            old(self).wf(),
        ensures
            final(self).wf(),
            final(self).url() == old(self).url(),
            final(self).received() == counted(old(self).received()),
            text_handled(old(self)@, text@, final(self)@, r),
    {
        if self.message_count < u64::MAX {
            self.message_count = self.message_count + 1;
        }
        match classify_text(text) {
            Inbound::Malformed => Reaction::Malformed,
            Inbound::Event => Reaction::Event,
            Inbound::Response(resp) => {
                let p = self.handle_api_response(&resp);
                Reaction::Resolved(resp, p)
            },
        }
    }

    /// Takes a frame from the connection; `None` means the stream ended.
    /// A text frame counts as a message; a response in it is applied, a
    /// frame that is no JSON value is reported and dropped. A ping is
    /// answered with a pong of the same payload. A close frame, an error or
    /// the end of the stream leaves the event loop without asking for
    /// shutdown.
    pub fn handle_message(&mut self, msg: Option<InboundFrame>) -> (r: Reaction)
        requires
            old(self).wf(),
        ensures
            final(self).wf(),
            final(self).url() == old(self).url(),
            match msg {
                Some(InboundFrame::Text(text)) => {
                    &&& final(self).received() == counted(old(self).received())
                    &&& text_handled(old(self)@, text@, final(self)@, r)
                },
                Some(InboundFrame::Ping(payload)) => {
                    &&& final(self)@ == old(self)@
                    &&& final(self).received() == old(self).received()
                    &&& (r matches Reaction::Pong(p) && p@ == payload@)
                },
                Some(InboundFrame::Binary(_)) | Some(InboundFrame::Pong(_)) => {
                    &&& final(self)@ == old(self)@
                    &&& final(self).received() == old(self).received()
                    &&& r is Idle
                },
                _ => {
                    &&& final(self)@ == old(self)@
                    &&& final(self).received() == old(self).received()
                    &&& r is Stop
                },
            },
    {
        match msg {
            Some(InboundFrame::Text(text)) => self.handle_text_message(text.as_str()),
            Some(InboundFrame::Ping(payload)) => Reaction::Pong(payload),
            Some(InboundFrame::Binary(_)) => Reaction::Idle,
            Some(InboundFrame::Pong(_)) => Reaction::Idle,
            Some(InboundFrame::Close) => Reaction::Stop,
            Some(InboundFrame::Failed) => Reaction::Stop,
            None => Reaction::Stop,
        }
    }

    /// The endpoint the client connects to.
    pub fn ws_url(&self) -> (r: &str)
        ensures
            r@ == self.url(),
    {
        self.ws_url.as_str()
    }

    /// Whether the operator asked to stop.
    pub fn shutdown_requested(&self) -> (r: bool)
        requires
            self.wf(),
        ensures
            r == self@.shutdown,
    {
        self.shutdown_requested
    }

    /// Whether request ids are left to hand out.
    pub fn ids_left(&self) -> (r: bool)
        ensures
            r == (self@.next_id < u64::MAX),
    {
        self.next_request_id < u64::MAX
    }

    /// Text frames received on the current connection.
    pub fn message_count(&self) -> (r: u64)
        ensures
            r == self.received(),
    {
        self.message_count
    }

    /// The desired and the active topics, each listed once.
    pub fn list_local_subscriptions(&self) -> (r: (Vec<String>, Vec<String>))
        requires
            self.wf(),
        ensures
            distinct(r.0@),
            topic_set(r.0@) == self@.desired,
            distinct(r.1@),
            topic_set(r.1@) == self@.active,
    {
        (copy_topics(&self.desired_subscriptions), copy_topics(&self.active_subscriptions))
    }

    /// The figures of the periodic stats report for the time since the
    /// connection was made.
    pub fn print_stats(&self, elapsed_millis: u64) -> (r: StatsReport)
        ensures
            r.message_count == self.received(),
            r.rate_centi == rate_centi_spec(self.received(), elapsed_millis as nat),
    {
        stats_report(self.message_count, elapsed_millis)
    }
}

/// A copy of a topic.
fn copy_topic(s: &String) -> (r: String)
    ensures
        r@ == s@,
{
    s.clone()
}

} // verus!
