//! What holds of the limiter through every run of requests and maintenance.

use crate::flow::FlowKey;
use crate::model::LimiterState;
use crate::window::{
    is_fresh, lemma_prune_all_fresh, lemma_prune_empty_iff_none_fresh, lemma_prune_len,
    lemma_prune_only_fresh, prune, Nanos,
};
use vstd::prelude::*;
use vstd::set_lib::lemma_len_subset;

verus! {

/// One request of a flow: the source port it comes from and the time at
/// which it is made.
pub struct Request {
    pub src_port: u16,
    pub at: Nanos,
}

impl LimiterState {
    /// The state after the admission gate has handled `requests` of the
    /// flow `key`, one after the other.
    pub open spec fn after_requests(self, key: FlowKey, requests: Seq<Request>) -> LimiterState
        decreases requests.len(),
    {
        if requests.len() == 0 {
            self
        } else {
            self.after_requests(key, requests.drop_last()).gate(
                key,
                requests.last().src_port,
                requests.last().at,
            ).0
        }
    }
}

/// The requests all come from a usable source port.
pub open spec fn from_usable_ports(requests: Seq<Request>) -> bool {
    forall|i: int| 0 <= i < requests.len() ==> (#[trigger] requests[i]).src_port != 0
}

/// The requests are in the order of their times, and the last is made no
/// more than `window` after the first.
pub open spec fn within_one_window(requests: Seq<Request>, window: Nanos) -> bool {
    &&& forall|i: int, j: int|
        0 <= i <= j < requests.len() ==> (#[trigger] requests[i]).at <= (#[trigger] requests[j]).at
    &&& requests.len() > 0 ==> requests.last().at - requests[0].at <= window
}

/// A new limiter is well formed.
pub proof fn lemma_initial_wf(enabled: bool, max_requests: nat, window: Nanos)
    ensures
        LimiterState::initial(enabled, max_requests, window).wf(),
        LimiterState::initial(enabled, max_requests, window).route_count() == 0,
{
}

/// A request never makes the table exceed its cap: a well-formed state
/// stays well formed, with the same cap, limit and window.
pub proof fn lemma_check_and_record_keeps_wf(s: LimiterState, key: FlowKey, now: Nanos)
    requires
        s.wf(),
    ensures
        s.check_and_record(key, now).0.wf(),
        s.check_and_record(key, now).0.route_count() <= s.max_routes,
        s.check_and_record(key, now).0.max_routes == s.max_routes,
        s.check_and_record(key, now).0.max_requests == s.max_requests,
        s.check_and_record(key, now).0.window == s.window,
        s.check_and_record(key, now).0.enabled == s.enabled,
{
    let next = s.check_and_record(key, now).0;
    lemma_prune_len(s.stamps(key), now, s.window);
    assert(s.tracks(key) ==> s.stamps(key).len() <= s.max_requests);
    assert forall|other: FlowKey| #[trigger] next.tracks(other) implies next.routes[other].len()
        <= next.max_requests by {
        if other != key {
            assert(s.tracks(other));
        }
    }
}

/// A packet never makes the table exceed its cap.
pub proof fn lemma_gate_keeps_wf(s: LimiterState, key: FlowKey, src_port: u16, now: Nanos)
    requires
        s.wf(),
    ensures
        s.gate(key, src_port, now).0.wf(),
        s.gate(key, src_port, now).0.route_count() <= s.max_routes,
{
    lemma_check_and_record_keeps_wf(s, key, now);
}

/// Maintenance never adds a flow: a well-formed state stays well formed,
/// and tracks no more flows than before.
pub proof fn lemma_prune_all_keeps_wf(s: LimiterState, now: Nanos)
    requires
        s.wf(),
    ensures
        s.prune_all(now).wf(),
        s.prune_all(now).route_count() <= s.route_count(),
        s.prune_all(now).routes.dom().subset_of(s.routes.dom()),
{
    lemma_len_subset(s.prune_all(now).routes.dom(), s.routes.dom());
    assert forall|key: FlowKey| #[trigger] s.prune_all(now).tracks(key) implies s.prune_all(
        now,
    ).routes[key].len() <= s.max_requests by {
        lemma_prune_len(s.routes[key], now, s.window);
    }
}

/// While the table is full, a request for a flow that is not tracked is
/// denied and changes nothing.
pub proof fn lemma_full_table_denies_new_flow(s: LimiterState, key: FlowKey, now: Nanos)
    requires
        s.is_full(),
        !s.tracks(key),
    ensures
        s.check_and_record(key, now) == (s, false),
{
}

/// A tracked flow is served in the same way whether the table is full or
/// not: it is admitted exactly when fewer of its admissions than the limit
/// still count, and only its own entry changes.
pub proof fn lemma_tracked_flow_served_when_full(s: LimiterState, key: FlowKey, now: Nanos)
    requires
        s.tracks(key),
    ensures
        s.check_and_record(key, now).1 == (s.live(key, now).len() < s.max_requests),
        s.check_and_record(key, now).0.tracks(key),
        forall|other: FlowKey|
            other != key ==> s.check_and_record(key, now).0.tracks(other) == s.tracks(other)
                && s.check_and_record(key, now).0.stamps(other) == s.stamps(other),
{
}

/// Right after a request of a flow that has room in the table, every
/// admission on record for that flow still counts.
pub proof fn lemma_recorded_admissions_count(s: LimiterState, key: FlowKey, now: Nanos)
    requires
        s.has_room_for(key),
    ensures
        s.check_and_record(key, now).0.tracks(key),
        forall|i: int|
            0 <= i < s.check_and_record(key, now).0.stamps(key).len() ==> is_fresh(
                #[trigger] s.check_and_record(key, now).0.stamps(key)[i],
                now,
                s.window,
            ),
{
    lemma_prune_only_fresh(s.stamps(key), now, s.window);
}

/// What a burst of requests leaves: after the first `count` requests of a
/// burst within one window, the flow is tracked with the times of the
/// admitted ones, which are the first `max_requests` of them.
proof fn lemma_burst_state(s: LimiterState, key: FlowKey, requests: Seq<Request>, count: int)
    requires
        s.enabled,
        s.has_room_for(key),
        key.dest_port != 0,
        from_usable_ports(requests),
        within_one_window(requests, s.window),
        requests.len() > 0 ==> s.live(key, requests[0].at).len() == 0,
        0 <= count <= requests.len(),
    ensures
        ({
            let t = s.after_requests(key, requests.take(count));
            &&& t.enabled
            &&& t.max_requests == s.max_requests
            &&& t.window == s.window
            &&& t.has_room_for(key)
            &&& count == 0 ==> t == s
            &&& count > 0 ==> {
                &&& t.tracks(key)
                &&& t.routes[key].len() == if count <= s.max_requests {
                    count
                } else {
                    s.max_requests as int
                }
                &&& forall|j: int|
                    0 <= j < t.routes[key].len() ==> #[trigger] t.routes[key][j] == requests[j].at
            }
        }),
    decreases count,
{
    if count == 0 {
        assert(requests.take(0).len() == 0);
    } else {
        let before = s.after_requests(key, requests.take(count - 1));
        let request = requests[count - 1];
        lemma_burst_state(s, key, requests, count - 1);
        assert(requests.take(count).drop_last() == requests.take(count - 1));
        assert(requests.take(count).last() == request);
        assert(s.after_requests(key, requests.take(count)) == before.gate(
            key,
            request.src_port,
            request.at,
        ).0);
        if count > 1 {
            assert forall|j: int| 0 <= j < before.routes[key].len() implies is_fresh(
                #[trigger] before.routes[key][j],
                request.at,
                s.window,
            ) by {
                assert(requests[0].at <= requests[j].at);
                assert(requests[count - 1].at <= requests[requests.len() - 1].at);
            }
            lemma_prune_all_fresh(before.routes[key], request.at, s.window);
        }
    }
}

/// Within one window a flow is admitted up to the limit and no further:
/// where the limiter is on, the flow has room in the table, and the window
/// opens with the first request of a burst (nothing recorded for the flow
/// still counts then), the request number `n` of the burst is admitted if
/// and only if `n` is at most `max_requests`. So request number
/// `max_requests + 1` is denied.
pub proof fn lemma_burst_admitted_up_to_limit(
    s: LimiterState,
    key: FlowKey,
    requests: Seq<Request>,
    n: int,
)
    requires
        s.enabled,
        s.has_room_for(key),
        key.dest_port != 0,
        from_usable_ports(requests),
        within_one_window(requests, s.window),
        requests.len() > 0 ==> s.live(key, requests[0].at).len() == 0,
        1 <= n <= requests.len(),
    ensures
        s.after_requests(key, requests.take(n - 1)).gate(
            key,
            requests[n - 1].src_port,
            requests[n - 1].at,
        ).1 == (n <= s.max_requests),
{
    let before = s.after_requests(key, requests.take(n - 1));
    let request = requests[n - 1];
    lemma_burst_state(s, key, requests, n - 1);
    if n > 1 {
        assert forall|j: int| 0 <= j < before.routes[key].len() implies is_fresh(
            #[trigger] before.routes[key][j],
            request.at,
            s.window,
        ) by {
            assert(requests[0].at <= requests[j].at);
            assert(requests[n - 1].at <= requests[requests.len() - 1].at);
        }
        lemma_prune_all_fresh(before.routes[key], request.at, s.window);
    }
}

/// Once the window has slid past every admission of a flow, its next
/// request is admitted, whatever was denied before: where more than
/// `window` has passed since each recorded admission of the flow, the limit
/// is not zero and the flow has room in the table, a packet of the flow
/// with usable ports passes, and its time is the only one then recorded.
pub proof fn lemma_admitted_after_window(s: LimiterState, key: FlowKey, src_port: u16, now: Nanos)
    requires
        s.has_room_for(key),
        s.max_requests > 0,
        key.dest_port != 0,
        src_port != 0,
        forall|i: int|
            0 <= i < s.stamps(key).len() ==> now - (#[trigger] s.stamps(key)[i]) > s.window,
    ensures
        s.gate(key, src_port, now).1,
        s.enabled ==> s.gate(key, src_port, now).0.stamps(key) == seq![now],
{
    lemma_prune_empty_iff_none_fresh(s.stamps(key), now, s.window);
    assert(s.live(key, now).len() == 0);
    assert(s.live(key, now).push(now) == seq![now]);
}

/// Maintenance stops tracking exactly the flows of which no admission
/// still counts; of every other flow it keeps the admissions that still
/// count, and those only.
pub proof fn lemma_prune_all_tracks(s: LimiterState, key: FlowKey, now: Nanos)
    ensures
        s.prune_all(now).tracks(key) <==> s.tracks(key) && exists|i: int|
            0 <= i < s.routes[key].len() && is_fresh(#[trigger] s.routes[key][i], now, s.window),
        s.prune_all(now).tracks(key) ==> s.prune_all(now).routes[key] == prune(
            s.routes[key],
            now,
            s.window,
        ),
{
    if s.tracks(key) {
        lemma_prune_empty_iff_none_fresh(s.routes[key], now, s.window);
    }
}

} // verus!
