//! The sliding-window rate limiter over a bounded table of flows.

use crate::clock::{clock_read, clock_start};
use crate::flow::{FlowKey, CODE_LIMIT};
use crate::model::{LimiterState, MAX_ROUTES};
use crate::window::{lemma_prune_empty, lemma_prune_len, prune, retain_fresh, Nanos};
use std::collections::HashMap;
use std::collections::VecDeque;
use tokio::time::Instant;
use vstd::prelude::*;
use vstd::set_lib::{lemma_len_subset, lemma_map_size};
use vstd::std_specs::hash::spec_hash_map_iter;
use vstd::std_specs::iter::IteratorSpec;

verus! {

broadcast use vstd::std_specs::hash::group_hash_axioms;

/// A rate limiter for flows, each identified by source address, protocol
/// and destination port.
#[derive(Debug)]
pub struct RateLimiter {
    enabled: bool,
    /// The admission times of each tracked flow, under the flow's code.
    routes: HashMap<u64, VecDeque<Nanos>>,
    max_routes: usize,
    max_requests: usize,
    window: Nanos,
    _cleanup_interval: Nanos,
    /// The instant from which this limiter counts time.
    started: Instant,
}

impl View for RateLimiter {
    type V = LimiterState;

    /// What the limiter holds: its settings, and for each flow that has an
    /// entry in the table the admission times of that entry.
    closed spec fn view(&self) -> LimiterState {
        LimiterState {
            enabled: self.enabled,
            routes: Map::new(
                |key: FlowKey| self.routes@.contains_key(key.code()),
                |key: FlowKey| self.routes@[key.code()]@,
            ),
            max_routes: self.max_routes as nat,
            max_requests: self.max_requests as nat,
            window: self.window,
        }
    }
}

impl RateLimiter {
    /// The invariant of the table: every entry stands under the code of a
    /// flow, there are no more entries than the cap allows, and no entry
    /// holds more admission times than the limit.
    pub closed spec fn wf(&self) -> bool {
        &&& forall|code: u64| #[trigger] self.routes@.contains_key(code) ==> code < CODE_LIMIT
        &&& self.routes@.dom().len() <= self.max_routes
        &&& forall|code: u64| #[trigger]
            self.routes@.contains_key(code) ==> self.routes@[code]@.len() <= self.max_requests
    }

    /// The hint on the cleaning interval that the limiter was made with.
    pub closed spec fn cleanup_interval(&self) -> Nanos {
        self._cleanup_interval
    }

    /// The tracked flows are as many as the entries of the table.
    proof fn lemma_route_count(&self)
        requires
            forall|code: u64| #[trigger] self.routes@.contains_key(code) ==> code < CODE_LIMIT,
        ensures
            self@.routes.dom().finite(),
            self@.routes.dom().len() == self.routes@.dom().len(),
    {
        let codes = self.routes@.dom();
        let keys = self@.routes.dom();
        let decode = |code: u64| FlowKey::from_code(code);
        assert forall|key: FlowKey| keys.contains(key) implies codes.map(decode).contains(key) by {
            key.lemma_code_round_trip();
            assert(codes.contains(key.code()) && decode(key.code()) == key);
        }
        assert forall|key: FlowKey| codes.map(decode).contains(key) implies keys.contains(key) by {
            let code = choose|code: u64| codes.contains(code) && decode(code) == key;
            FlowKey::lemma_from_code_round_trip(code);
        }
        assert(codes.map(decode) =~= keys);
        assert(vstd::relations::injective_on(decode, codes)) by {
            assert forall|a: u64, b: u64|
                codes.contains(a) && codes.contains(b) && #[trigger] decode(a) == #[trigger] decode(
                    b,
                ) implies a == b by {
                FlowKey::lemma_from_code_round_trip(a);
                FlowKey::lemma_from_code_round_trip(b);
            }
        }
        lemma_map_size(codes, keys, decode);
    }

    /// A limiter that is well formed models a well-formed state.
    pub proof fn lemma_wf_view(&self)
        requires
            self.wf(),
        ensures
            self@.wf(),
    {
        self.lemma_route_count();
    }

    /// Creates a limiter that tracks no flow yet.
    ///
    /// It grants one admission less per window than `max_requests` says,
    /// unless that is 0 or 1. `window` is the length of the sliding window
    /// in nanoseconds. `cleanup_interval` is kept and not used.
    pub fn new(
        enabled: bool,
        max_requests: usize,
        window: Nanos,
        cleanup_interval: Nanos,
    ) -> (limiter: RateLimiter)
        ensures
            limiter.wf(),
            limiter@.wf(),
            limiter@ == LimiterState::initial(enabled, max_requests as nat, window),
            limiter.cleanup_interval() == cleanup_interval,
    {
        let limiter = RateLimiter {
            enabled,
            routes: HashMap::new(),
            max_routes: MAX_ROUTES,
            max_requests: if max_requests > 1 {
                max_requests - 1
            } else {
                max_requests
            },
            window,
            _cleanup_interval: cleanup_interval,
            started: clock_start(),
        };
        assert(limiter@.routes =~= Map::empty());
        proof {
            limiter.lemma_wf_view();
        }
        limiter
    }

    /// Handles a request for the flow `(src_ip, protocol, dest_port)` made
    /// at `now`, and says whether it is admitted.
    ///
    /// The state and the answer are those of `LimiterState::check_and_record`.
    pub fn is_allowed_at(
        &mut self,
        src_ip: u32,
        protocol: u8,
        dest_port: u16,
        now: Nanos,
    ) -> (allowed: bool)
        requires
            old(self).wf(),
        ensures
            final(self).wf(),
            final(self)@.wf(),
            (final(self)@, allowed) == old(self)@.check_and_record(
                (FlowKey { src_ip, protocol, dest_port }),
                now,
            ),
            final(self).cleanup_interval() == old(self).cleanup_interval(),
    {
        let key = FlowKey::new(src_ip, protocol, dest_port);
        let code = key.code();
        proof {
            self.lemma_route_count();
        }
        // A full table takes no new flow.
        if self.routes.len() >= self.max_routes && !self.routes.contains_key(&code) {
            proof {
                self.lemma_wf_view();
            }
            return false;
        }
        // Only the admissions that still count are kept.
        let mut stamps = match self.routes.get(&code) {
            Some(recorded) => retain_fresh(recorded, now, self.window),
            None => {
                proof {
                    lemma_prune_empty(now, self.window);
                }
                VecDeque::new()
            },
        };
        assert(stamps@ == old(self)@.live(key, now));
        proof {
            lemma_prune_len(old(self)@.stamps(key), now, self.window);
        }
        let allowed = stamps.len() < self.max_requests;
        if allowed {
            stamps.push_back(now);
        }
        self.routes.insert(code, stamps);
        proof {
            let expected = old(self)@.check_and_record(key, now).0;
            assert forall|other: FlowKey| other.code() == code implies other == key by {
                FlowKey::lemma_code_injective(other, key);
            }
            assert(self@.routes =~= expected.routes);
            assert(self.routes@.dom() =~= old(self).routes@.dom().insert(code));
            self.lemma_wf_view();
        }
        allowed
    }

    /// Maintenance at `now`: drops every admission time that no longer
    /// counts, and stops tracking the flows that keep none.
    ///
    /// The state is that of `LimiterState::prune_all`.
    pub fn cleanup_old_requests_at(&mut self, now: Nanos)
        requires
            old(self).wf(),
        ensures
            final(self).wf(),
            final(self)@.wf(),
            final(self)@ == old(self)@.prune_all(now),
            final(self).cleanup_interval() == old(self).cleanup_interval(),
    {
        let mut kept: HashMap<u64, VecDeque<Nanos>> = HashMap::new();
        let window = self.window;
        for entry in it: self.routes.iter()
            invariant
                it.seq() == spec_hash_map_iter(&self.routes).remaining(),
                forall|code: u64| #[trigger]
                    kept@.contains_key(code) <==> {
                        &&& self.routes@.contains_key(code)
                        &&& prune(self.routes@[code]@, now, window).len() > 0
                        &&& exists|j: int|
                            0 <= j < it.index() && *(#[trigger] it.seq()[j]).0 == code
                    },
                forall|code: u64| #[trigger]
                    kept@.contains_key(code) ==> kept@[code]@ == prune(
                        self.routes@[code]@,
                        now,
                        window,
                    ),
        {
            let (code, recorded) = entry;
            let stamps = retain_fresh(recorded, now, window);
            proof {
                lemma_prune_len(recorded@, now, window);
            }
            if stamps.len() > 0 {
                kept.insert(*code, stamps);
            }
        }
        self.routes = kept;
        proof {
            assert(self@.routes =~= old(self)@.prune_all(now).routes);
            assert(self.routes@.dom().subset_of(old(self).routes@.dom()));
            lemma_len_subset(self.routes@.dom(), old(self).routes@.dom());
            self.lemma_wf_view();
        }
    }

    /// Handles a request for the flow `(src_ip, protocol, dest_port)` made
    /// now, by this limiter's clock, and says whether it is admitted.
    ///
    /// The state and the answer are those of `is_allowed_at` for the time
    /// that the clock gave, whatever it was.
    pub fn is_allowed(&mut self, src_ip: u32, protocol: u8, dest_port: u16) -> (allowed: bool)
        requires
            old(self).wf(),
        ensures
            final(self).wf(),
            final(self)@.wf(),
            exists|now: Nanos|
                (final(self)@, allowed) == #[trigger] old(self)@.check_and_record(
                    (FlowKey { src_ip, protocol, dest_port }),
                    now,
                ),
            final(self).cleanup_interval() == old(self).cleanup_interval(),
    {
        let now = clock_read(&self.started);
        self.is_allowed_at(src_ip, protocol, dest_port, now)
    }

    /// Maintenance now, by this limiter's clock.
    ///
    /// The state is that of `cleanup_old_requests_at` for the time that the
    /// clock gave, whatever it was.
    pub fn cleanup_old_requests(&mut self)
        requires
            old(self).wf(),
        ensures
            final(self).wf(),
            final(self)@.wf(),
            exists|now: Nanos| final(self)@ == #[trigger] old(self)@.prune_all(now),
            final(self).cleanup_interval() == old(self).cleanup_interval(),
    {
        let now = clock_read(&self.started);
        self.cleanup_old_requests_at(now)
    }

    /// Switches the limiter on or off. Nothing else changes.
    pub fn set_enabled(&mut self, enabled: bool)
        ensures
            final(self)@ == old(self)@.with_enabled(enabled),
            final(self).wf() == old(self).wf(),
            final(self).cleanup_interval() == old(self).cleanup_interval(),
    {
        self.enabled = enabled;
    }

    /// Whether the limiter is switched on.
    pub fn is_enabled(&self) -> (enabled: bool)
        ensures
            enabled == self@.enabled,
    {
        self.enabled
    }

    /// The number of admissions granted per flow and window.
    pub fn max_requests(&self) -> (limit: usize)
        ensures
            limit == self@.max_requests,
    {
        self.max_requests
    }

    /// The number of flows tracked at most.
    pub fn max_routes(&self) -> (cap: usize)
        ensures
            cap == self@.max_routes,
    {
        self.max_routes
    }

    /// The length of the sliding window in nanoseconds.
    pub fn window(&self) -> (window: Nanos)
        ensures
            window == self@.window,
    {
        self.window
    }

    /// The number of flows tracked.
    pub fn route_count(&self) -> (count: usize)
        requires
            self.wf(),
        ensures
            count == self@.route_count(),
    {
        proof {
            self.lemma_route_count();
        }
        self.routes.len()
    }

    /// The admission times recorded for the flow `(src_ip, protocol,
    /// dest_port)`, oldest first; `None` if the flow is not tracked.
    pub fn timestamps(&self, src_ip: u32, protocol: u8, dest_port: u16) -> (recorded: Option<
        Vec<Nanos>,
    >)
        ensures
            match recorded {
                Some(stamps) => {
                    &&& self@.tracks((FlowKey { src_ip, protocol, dest_port }))
                    &&& stamps@ == self@.routes[(FlowKey { src_ip, protocol, dest_port })]
                },
                None => !self@.tracks((FlowKey { src_ip, protocol, dest_port })),
            },
    {
        let code = FlowKey::new(src_ip, protocol, dest_port).code();
        match self.routes.get(&code) {
            Some(recorded) => {
                let mut stamps: Vec<Nanos> = Vec::new();
                let mut i: usize = 0;
                while i < recorded.len()
                    invariant
                        i <= recorded@.len(),
                        stamps@ == recorded@.take(i as int),
                    decreases recorded@.len() - i,
                {
                    stamps.push(recorded[i]);
                    i += 1;
                    assert(recorded@.take(i as int) == recorded@.take(i - 1).push(
                        recorded@[i - 1],
                    ));
                }
                assert(recorded@.take(recorded@.len() as int) == recorded@);
                Some(stamps)
            },
            None => None,
        }
    }
}

impl Clone for RateLimiter {
    /// A limiter with the same state and the same clock.
    fn clone(&self) -> (copy: RateLimiter)
        ensures
            copy@ == self@,
            copy.wf() == self.wf(),
            copy.cleanup_interval() == self.cleanup_interval(),
    {
        let copy = RateLimiter {
            enabled: self.enabled,
            routes: self.routes.clone(),
            max_routes: self.max_routes,
            max_requests: self.max_requests,
            window: self.window,
            _cleanup_interval: self._cleanup_interval,
            started: self.started,
        };
        assert(copy@.routes =~= self@.routes);
        copy
    }
}

} // verus!
