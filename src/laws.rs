//! Properties of the reconciler over sequences of events.

use vstd::prelude::*;

use crate::client::{
    ids_fresh, list_server_step, resync_step, response_step, subscribe_step, unsubscribe_step,
    Pending, Request, RequestKind, State,
};
use crate::wire::Method;

verus! {

/// An event that the reconciler handles, with topics in normal form.
pub enum ClientEvent {
    Subscribe(Seq<char>),
    Unsubscribe(Seq<char>),
    ListServer,
    /// A response with its id, where it had an integer one, and whether it
    /// carried an error.
    Response(Option<i64>, bool),
    /// A new connection was made.
    Reconnect,
    /// A quit command, or the end of the command source.
    Quit,
}

/// Whether an event takes the state `s` to `s2` and sends `q`.
pub open spec fn step(s: State, e: ClientEvent, s2: State, q: Option<Request>) -> bool {
    match e {
        ClientEvent::Subscribe(t) => (s2, q) == subscribe_step(s, t),
        ClientEvent::Unsubscribe(t) => (s2, q) == unsubscribe_step(s, t),
        ClientEvent::ListServer => s2 == list_server_step(s).0 && q == Some(list_server_step(s).1),
        ClientEvent::Response(id, failed) => s2 == response_step(s, id, failed) && q is None,
        ClientEvent::Reconnect => resync_step(s, s2, q),
        ClientEvent::Quit => s2 == (State { shutdown: true, ..s }) && q is None,
    }
}

/// An unsubscribe request in flight for topic `t` under id `k`.
pub open spec fn unsubscribing(s: State, k: u64, t: Seq<char>) -> bool {
    &&& s.pending.contains_key(k)
    &&& s.pending[k].kind == RequestKind::Unsubscribe
    &&& s.pending[k].topics.contains(t)
}

/// No unsubscribe request is in flight.
pub open spec fn no_unsubscribe_pending(s: State) -> bool {
    forall|k: u64| #[trigger] s.pending.contains_key(k) ==> s.pending[k].kind != RequestKind::Unsubscribe
}

/// Request ids are fresh, and every confirmed topic is desired or has an
/// unsubscribe request in flight.
pub open spec fn confirmed_within_desired(s: State) -> bool {
    &&& ids_fresh(s)
    &&& forall|t: Seq<char>| #[trigger] s.active.contains(t) ==> s.desired.contains(t) || exists|k: u64|
        unsubscribing(s, k, t)
}

/// A state with nothing confirmed and nothing in flight, as a new client has,
/// keeps confirmed topics within the desired ones.
pub proof fn lemma_start_within_desired(s: State)
    requires
        s.active == Set::<Seq<char>>::empty(),
        s.pending == Map::<u64, Pending>::empty(),
        1 <= s.next_id <= u64::MAX,
    ensures
        confirmed_within_desired(s),
{
}

/// In every reachable state the confirmed topics are desired, but for topics
/// whose unsubscribe request is still in flight; so, with no unsubscribe in
/// flight, the active topics are a subset of the desired ones. Every event
/// keeps this, where a step that sends a request has an id left to use.
pub proof fn lemma_active_within_desired(s: State, e: ClientEvent, s2: State, q: Option<Request>)
    requires
        confirmed_within_desired(s),
        step(s, e, s2, q),
        q is Some ==> s.next_id < u64::MAX,
    ensures
        confirmed_within_desired(s2),
        no_unsubscribe_pending(s2) ==> s2.active.subset_of(s2.desired),
{
    let n = s.next_id as u64;
    match e {
        ClientEvent::Subscribe(t) => {
            if !s.desired.contains(t) {
                assert forall|t0: Seq<char>| #[trigger] s2.active.contains(t0) implies s2.desired.contains(t0)
                    || exists|k: u64| unsubscribing(s2, k, t0) by {
                    if !s.desired.contains(t0) {
                        let k = choose|k: u64| unsubscribing(s, k, t0);
                        assert(unsubscribing(s2, k, t0));
                    }
                }
            }
        },
        ClientEvent::Unsubscribe(t) => {
            if s.desired.contains(t) {
                assert forall|t0: Seq<char>| #[trigger] s2.active.contains(t0) implies s2.desired.contains(t0)
                    || exists|k: u64| unsubscribing(s2, k, t0) by {
                    if t0 == t {
                        assert(seq![t][0] == t);
                        assert(unsubscribing(s2, n, t0));
                    } else if !s.desired.contains(t0) {
                        let k = choose|k: u64| unsubscribing(s, k, t0);
                        assert(unsubscribing(s2, k, t0));
                    }
                }
            }
        },
        ClientEvent::ListServer => {
            assert forall|t0: Seq<char>| #[trigger] s2.active.contains(t0) implies s2.desired.contains(t0)
                || exists|k: u64| unsubscribing(s2, k, t0) by {
                if !s.desired.contains(t0) {
                    let k = choose|k: u64| unsubscribing(s, k, t0);
                    assert(unsubscribing(s2, k, t0));
                }
            }
        },
        ClientEvent::Response(id, failed) => {
            match crate::client::resolved_id(s, id) {
                None => {},
                Some(k0) => {
                    let p = s.pending[k0];
                    let ts = p.topics.to_set();
                    assert forall|t0: Seq<char>| #[trigger] s2.active.contains(t0) implies s2.desired.contains(t0)
                        || exists|k: u64| unsubscribing(s2, k, t0) by {
                        if !s2.desired.contains(t0) {
                            assert(s.active.contains(t0));
                            assert(!s.desired.contains(t0) || (failed && p.kind == RequestKind::Subscribe));
                            if s.desired.contains(t0) {
                                assert(!ts.difference(s.active).contains(t0));
                            }
                            let k = choose|k: u64| unsubscribing(s, k, t0);
                            if k == k0 {
                                assert(ts.contains(t0));
                            }
                            assert(unsubscribing(s2, k, t0));
                        }
                    }
                },
            }
        },
        ClientEvent::Reconnect => {},
        ClientEvent::Quit => {
            assert forall|t0: Seq<char>| #[trigger] s2.active.contains(t0) implies s2.desired.contains(t0)
                || exists|k: u64| unsubscribing(s2, k, t0) by {
                if !s.desired.contains(t0) {
                    let k = choose|k: u64| unsubscribing(s, k, t0);
                    assert(unsubscribing(s2, k, t0));
                }
            }
        },
    }
    if no_unsubscribe_pending(s2) {
        assert forall|t0: Seq<char>| s2.active.contains(t0) implies s2.desired.contains(t0) by {
            if !s2.desired.contains(t0) {
                let k = choose|k: u64| unsubscribing(s2, k, t0);
                assert(s2.pending.contains_key(k));
            }
        }
    }
}

/// Asking twice in a row for a topic that is not desired sends exactly one
/// subscribe request, for that topic alone; the second request changes
/// nothing.
pub proof fn lemma_subscribe_idempotent(s: State, t: Seq<char>)
    requires
        !s.desired.contains(t),
    ensures
        subscribe_step(s, t).1 matches Some(r) && r.method == Method::Subscribe && r.topics == seq![t],
        subscribe_step(subscribe_step(s, t).0, t).1 is None,
        subscribe_step(subscribe_step(s, t).0, t).0 == subscribe_step(s, t).0,
{
}

/// An unsubscribe request that the server rejects leaves the desired and
/// the active topics, and the requests in flight, as they were before it.
pub proof fn lemma_unsubscribe_rejection_restores(s: State, t: Seq<char>)
    requires
        ids_fresh(s),
        s.next_id <= i64::MAX,
        s.desired.contains(t),
    ensures
        ({
            let (s1, q) = unsubscribe_step(s, t);
            let s2 = response_step(s1, Some(s.next_id as i64), true);
            &&& q is Some
            &&& s2.desired == s.desired
            &&& s2.active == s.active
            &&& s2.pending == s.pending
        }),
{
    let (s1, q) = unsubscribe_step(s, t);
    let k = s.next_id as u64;
    assert(seq![t].to_set() =~= set![t]) by {
        assert(seq![t][0] == t);
    }
    assert(s.desired.remove(t).union(set![t]) =~= s.desired);
    assert(!s.pending.contains_key(k));
    assert(s1.pending.remove(k) =~= s.pending);
}

/// After a new connection, nothing is confirmed and one subscribe request
/// goes out whose topics are the desired ones.
pub proof fn lemma_reconnect_resync(s: State, s2: State, q: Option<Request>)
    requires
        resync_step(s, s2, q),
        !s.desired.is_empty(),
    ensures
        s2.active.is_empty(),
        s2.desired == s.desired,
        q matches Some(r) && r.method == Method::Subscribe && r.topics.to_set() == s.desired,
        s2.pending.dom() == set![s.next_id as u64],
{
    assert(s2.pending.dom() =~= set![s.next_id as u64]);
}

/// Whether `states` and `sent` are what `events` produce one after another.
pub open spec fn run(states: Seq<State>, events: Seq<ClientEvent>, sent: Seq<Option<Request>>) -> bool {
    &&& states.len() == events.len() + 1
    &&& sent.len() == events.len()
    &&& forall|i: int| 0 <= i < events.len() ==> #[trigger] step(states[i], events[i], states[i + 1], sent[i])
}

proof fn lemma_step_ids(s: State, e: ClientEvent, s2: State, q: Option<Request>)
    requires
        step(s, e, s2, q),
    ensures
        s.next_id <= s2.next_id,
        q matches Some(r) ==> r.id == s.next_id && s2.next_id == s.next_id + 1,
{
}

proof fn lemma_ids_grow(states: Seq<State>, events: Seq<ClientEvent>, sent: Seq<Option<Request>>, i: int, j: int)
    requires
        run(states, events, sent),
        0 <= i <= j <= events.len(),
    ensures
        states[i].next_id <= states[j].next_id,
    decreases j - i,
{
    if i < j {
        lemma_ids_grow(states, events, sent, i, j - 1);
        let k = j - 1;
        assert(step(states[k], events[k], states[k + 1], sent[k]));
        lemma_step_ids(states[k], events[k], states[k + 1], sent[k]);
    }
}

/// Requests sent one after another carry strictly increasing ids, so no id
/// is used twice.
pub proof fn lemma_ids_increase(
    states: Seq<State>,
    events: Seq<ClientEvent>,
    sent: Seq<Option<Request>>,
    i: int,
    j: int,
)
    requires
        run(states, events, sent),
        0 <= i < j < events.len(),
        sent[i] is Some,
        sent[j] is Some,
    ensures
        sent[i].unwrap().id < sent[j].unwrap().id,
{
    assert(step(states[i], events[i], states[i + 1], sent[i]));
    lemma_step_ids(states[i], events[i], states[i + 1], sent[i]);
    assert(step(states[j], events[j], states[j + 1], sent[j]));
    lemma_step_ids(states[j], events[j], states[j + 1], sent[j]);
    lemma_ids_grow(states, events, sent, i + 1, j);
}

} // verus!
