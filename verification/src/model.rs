//! The limiter as mathematics: what it holds, and what each operation
//! makes of it.

use crate::flow::FlowKey;
use crate::window::{prune, Nanos};
use vstd::prelude::*;

verus! {

/// The number of flows that a limiter tracks at most.
pub const MAX_ROUTES: usize = 50;

/// The number of admissions per flow and window that a limiter grants when
/// it is configured with `max_requests`: one less, unless that is 0 or 1.
pub open spec fn effective_limit(max_requests: nat) -> nat {
    if max_requests > 1 {
        (max_requests - 1) as nat
    } else {
        max_requests
    }
}

/// What a limiter holds.
pub struct LimiterState {
    /// Whether the admission gate consults the limiter at all.
    pub enabled: bool,
    /// The tracked flows, each with its admission times, oldest first.
    pub routes: Map<FlowKey, Seq<Nanos>>,
    /// The number of flows tracked at most.
    pub max_routes: nat,
    /// The number of admissions granted per flow and window.
    pub max_requests: nat,
    /// The length of the sliding window.
    pub window: Nanos,
}

impl LimiterState {
    /// The state of a new limiter: no flow is tracked.
    pub open spec fn initial(enabled: bool, max_requests: nat, window: Nanos) -> LimiterState {
        LimiterState {
            enabled,
            routes: Map::empty(),
            max_routes: MAX_ROUTES as nat,
            max_requests: effective_limit(max_requests),
            window,
        }
    }

    /// Finitely many flows are tracked, no more than the cap, and none
    /// with more admission times on record than the limit.
    pub open spec fn wf(self) -> bool {
        &&& self.routes.dom().finite()
        &&& self.routes.dom().len() <= self.max_routes
        &&& forall|key: FlowKey| #[trigger]
            self.tracks(key) ==> self.routes[key].len() <= self.max_requests
    }

    /// Whether `key` is tracked.
    pub open spec fn tracks(self, key: FlowKey) -> bool {
        self.routes.contains_key(key)
    }

    /// The number of tracked flows.
    pub open spec fn route_count(self) -> nat {
        self.routes.dom().len()
    }

    /// Whether the table is at its cap.
    pub open spec fn is_full(self) -> bool {
        self.route_count() >= self.max_routes
    }

    /// Whether a request for `key` is looked at: a flow that is not tracked
    /// is turned away while the table is full.
    pub open spec fn has_room_for(self, key: FlowKey) -> bool {
        self.tracks(key) || !self.is_full()
    }

    /// The admission times of `key` as recorded; none if it is not tracked.
    pub open spec fn stamps(self, key: FlowKey) -> Seq<Nanos> {
        if self.tracks(key) {
            self.routes[key]
        } else {
            Seq::empty()
        }
    }

    /// The admission times of `key` that still count at `now`.
    pub open spec fn live(self, key: FlowKey, now: Nanos) -> Seq<Nanos> {
        prune(self.stamps(key), now, self.window)
    }

    /// The state with `stamps` recorded for `key`.
    pub open spec fn with_route(self, key: FlowKey, stamps: Seq<Nanos>) -> LimiterState {
        LimiterState { routes: self.routes.insert(key, stamps), ..self }
    }

    /// A request for `key` at `now`: the state it leaves and whether it is
    /// admitted.
    ///
    /// A flow that is not tracked is denied while the table is full, and
    /// nothing changes. Otherwise the admission times of the flow are pruned
    /// to those that still count; if they are fewer than the limit, `now` is
    /// recorded behind them and the request is admitted.
    pub open spec fn check_and_record(self, key: FlowKey, now: Nanos) -> (LimiterState, bool) {
        if !self.has_room_for(key) {
            (self, false)
        } else if self.live(key, now).len() < self.max_requests {
            (self.with_route(key, self.live(key, now).push(now)), true)
        } else {
            (self.with_route(key, self.live(key, now)), false)
        }
    }

    /// Maintenance at `now`: every flow keeps the admission times that still
    /// count, and a flow that keeps none is no longer tracked.
    pub open spec fn prune_all(self, now: Nanos) -> LimiterState {
        LimiterState {
            routes: Map::new(
                |key: FlowKey| self.tracks(key) && self.live(key, now).len() > 0,
                |key: FlowKey| self.live(key, now),
            ),
            ..self
        }
    }

    /// The state with the limiter switched on or off.
    pub open spec fn with_enabled(self, enabled: bool) -> LimiterState {
        LimiterState { enabled, ..self }
    }

    /// A packet of flow `key` from source port `src_port` at `now`: the
    /// state it leaves and whether it may pass.
    ///
    /// A packet with a zero port never passes. While the limiter is off,
    /// every other packet passes. Neither touches the state. Otherwise the
    /// limiter decides.
    pub open spec fn gate(self, key: FlowKey, src_port: u16, now: Nanos) -> (LimiterState, bool) {
        if key.dest_port == 0 || src_port == 0 {
            (self, false)
        } else if !self.enabled {
            (self, true)
        } else {
            self.check_and_record(key, now)
        }
    }
}

} // verus!
