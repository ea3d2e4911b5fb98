//! The admission gate that the packet path asks: it turns away packets
//! without a usable port, lets everything else pass while the limiter is
//! off, and asks the limiter otherwise.

use crate::flow::FlowKey;
use crate::limiter::RateLimiter;
use crate::maintenance::BACKGROUND_TASK_PERIOD_MS;
use crate::model::LimiterState;
use crate::window::Nanos;
use vstd::prelude::*;

verus! {

/// The admission gate with the limiter it owns.
#[derive(Debug)]
pub struct Security {
    background_task_period: u64,
    rate_limiter: RateLimiter,
}

impl View for Security {
    type V = LimiterState;

    /// The state of the limiter behind the admission gate.
    closed spec fn view(&self) -> LimiterState {
        self.rate_limiter@
    }
}

impl Security {
    /// The limiter behind the admission gate is well formed.
    pub closed spec fn wf(&self) -> bool {
        self.rate_limiter.wf()
    }

    /// The time between two ticks of the maintenance task, in milliseconds.
    pub closed spec fn spec_background_task_period(&self) -> u64 {
        self.background_task_period
    }

    /// A gate that is well formed holds a well-formed state.
    pub proof fn lemma_wf_view(&self)
        requires
            self.wf(),
        ensures
            self@.wf(),
    {
        self.rate_limiter.lemma_wf_view();
    }

    /// Creates a gate over a copy of `rate_limiter`.
    pub fn new(rate_limiter: &RateLimiter) -> (gate: Security)
        requires
            rate_limiter.wf(),
        ensures
            gate.wf(),
            gate@.wf(),
            gate@ == rate_limiter@,
            gate.background_task_period() == BACKGROUND_TASK_PERIOD_MS,
    {
        let gate = Security {
            background_task_period: BACKGROUND_TASK_PERIOD_MS,
            rate_limiter: rate_limiter.clone(),
        };
        proof {
            gate.lemma_wf_view();
        }
        gate
    }

    /// The time between two ticks of the maintenance task, in milliseconds.
    #[verifier::when_used_as_spec(spec_background_task_period)]
    pub fn background_task_period(&self) -> (period: u64)
        ensures
            period == self.background_task_period(),
    {
        self.background_task_period
    }

    /// Decides whether a packet seen at `now` may pass.
    ///
    /// The state and the answer are those of `LimiterState::gate`: a packet
    /// with source port 0 or destination port 0 is denied, also while the
    /// limiter is off; while it is off every other packet passes; in both
    /// cases nothing changes. Otherwise the limiter decides and records.
    pub fn is_packet_secure_at(
        &mut self,
        src_ip: u32,
        protocol: u8,
        src_port: u16,
        dest_port: u16,
        now: Nanos,
    ) -> (secure: bool)
        requires
            old(self).wf(),
        ensures
            final(self).wf(),
            final(self)@.wf(),
            (final(self)@, secure) == old(self)@.gate(
                (FlowKey { src_ip, protocol, dest_port }),
                src_port,
                now,
            ),
            src_port == 0 || dest_port == 0 ==> !secure && final(self)@ == old(self)@,
            src_port != 0 && dest_port != 0 && !old(self)@.enabled ==> secure && final(self)@
                == old(self)@,
            final(self).background_task_period() == old(self).background_task_period(),
    {
        proof {
            self.lemma_wf_view();
        }
        if dest_port == 0 || src_port == 0 {
            return false;
        }
        if !self.rate_limiter.is_enabled() {
            return true;
        }
        self.rate_limiter.is_allowed_at(src_ip, protocol, dest_port, now)
    }

    /// Decides whether a packet seen now, by the limiter's clock, may pass.
    ///
    /// A packet with source port 0 or destination port 0 is denied, also
    /// while the limiter is off; while it is off every other packet passes;
    /// in both cases nothing changes and the clock is not read. Otherwise
    /// the state and the answer are those of `is_packet_secure_at` for the
    /// time that the clock gave, whatever it was.
    pub fn is_packet_secure(
        &mut self,
        src_ip: u32,
        protocol: u8,
        src_port: u16,
        dest_port: u16,
    ) -> (secure: bool)
        requires
            old(self).wf(),
        ensures
            final(self).wf(),
            final(self)@.wf(),
            exists|now: Nanos|
                (final(self)@, secure) == #[trigger] old(self)@.gate(
                    (FlowKey { src_ip, protocol, dest_port }),
                    src_port,
                    now,
                ),
            src_port == 0 || dest_port == 0 ==> !secure && final(self)@ == old(self)@,
            src_port != 0 && dest_port != 0 && !old(self)@.enabled ==> secure && final(self)@
                == old(self)@,
            final(self).background_task_period() == old(self).background_task_period(),
    {
        let ghost key = FlowKey { src_ip, protocol, dest_port };
        proof {
            self.lemma_wf_view();
        }
        if dest_port == 0 || src_port == 0 {
            assert((self@, false) == old(self)@.gate(key, src_port, 0));
            return false;
        }
        if !self.rate_limiter.is_enabled() {
            assert((self@, true) == old(self)@.gate(key, src_port, 0));
            return true;
        }
        let secure = self.rate_limiter.is_allowed(src_ip, protocol, dest_port);
        proof {
            let now = choose|now: Nanos|
                (self@, secure) == #[trigger] old(self)@.check_and_record(key, now);
            assert((self@, secure) == old(self)@.gate(key, src_port, now));
        }
        secure
    }

    /// Switches the limiter on or off. Nothing else changes.
    pub fn set_rate_limiter(&mut self, enabled: bool)
        ensures
            final(self)@ == old(self)@.with_enabled(enabled),
            final(self).wf() == old(self).wf(),
            final(self).background_task_period() == old(self).background_task_period(),
    {
        self.rate_limiter.set_enabled(enabled);
    }

    /// Maintenance at `now`: the state is that of `LimiterState::prune_all`.
    pub fn cleanup_old_requests_at(&mut self, now: Nanos)
        requires
            old(self).wf(),
        ensures
            final(self).wf(),
            final(self)@.wf(),
            final(self)@ == old(self)@.prune_all(now),
            final(self).background_task_period() == old(self).background_task_period(),
    {
        self.rate_limiter.cleanup_old_requests_at(now);
    }

    /// Maintenance now, by the limiter's clock, and the number of flows
    /// that are still tracked after it.
    pub fn cleanup_old_requests(&mut self) -> (active: usize)
        requires
            old(self).wf(),
        ensures
            final(self).wf(),
            final(self)@.wf(),
            exists|now: Nanos| final(self)@ == #[trigger] old(self)@.prune_all(now),
            active == final(self)@.route_count(),
            final(self).background_task_period() == old(self).background_task_period(),
    {
        self.rate_limiter.cleanup_old_requests();
        proof {
            let now = choose|now: Nanos| self@ == #[trigger] old(self)@.prune_all(now);
            assert(self@ == old(self)@.prune_all(now));
        }
        self.rate_limiter.route_count()
    }

    /// The limiter behind the admission gate.
    pub fn rate_limiter(&self) -> (limiter: &RateLimiter)
        ensures
            limiter@ == self@,
            limiter.wf() == self.wf(),
    {
        &self.rate_limiter
    }
}

} // verus!
