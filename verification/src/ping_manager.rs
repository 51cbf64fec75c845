//! WebSocket ping/pong timeout detection.
//!
//! Tracks one pending ping at a time: a new ping replaces the pending one,
//! any pong clears it, and a ping that has waited longer than the timeout
//! marks the connection dead. Times are nanoseconds on a monotonic clock
//! whose origin the caller fixes.

use vstd::prelude::*;

verus! {

/// Nanoseconds in a second.
pub const NANOS_PER_SEC: u128 = 1_000_000_000;

/// What a ping manager holds.
pub struct PingView {
    /// When the pending ping was sent, if one is pending.
    pub pending: Option<nat>,
    /// How long a pong may take, in nanoseconds.
    pub timeout: nat,
}

/// Time elapsed since `sent` at `now`; zero for a `now` before `sent`.
pub open spec fn elapsed(sent: nat, now: nat) -> nat {
    if now >= sent {
        (now - sent) as nat
    } else {
        0
    }
}

/// Whether a check at `now` finds the pending ping timed out.
pub open spec fn timed_out(p: PingView, now: nat) -> bool {
    match p.pending {
        Some(sent) => elapsed(sent, now) > p.timeout,
        None => false,
    }
}

/// The state after a check at `now`: cleared when the ping timed out,
/// unchanged otherwise.
pub open spec fn after_check(p: PingView, now: nat) -> PingView {
    if timed_out(p, now) {
        PingView { pending: None, ..p }
    } else {
        p
    }
}

/// When the pending ping times out, if one is pending.
pub open spec fn deadline(p: PingView) -> Option<nat> {
    match p.pending {
        Some(sent) => Some(sent + p.timeout),
        None => None,
    }
}

/// Detects pings whose pong did not arrive in time.
#[derive(Debug)]
pub struct PingManager {
    pending: Option<u64>,
    timeout_nanos: u128,
}

impl View for PingManager {
    type V = PingView;

    closed spec fn view(&self) -> PingView {
        PingView {
            pending: match self.pending {
                Some(t) => Some(t as nat),
                None => None,
            },
            timeout: self.timeout_nanos as nat,
        }
    }
}

impl PingManager {
    /// The timeout is a whole number of seconds a `u64` can count.
    #[verifier::type_invariant]
    spec fn timeout_fits(&self) -> bool {
        self.timeout_nanos as nat <= Self::timeout_bound()
    }

    /// What every manager's view keeps to: the pending send time is a `u64`
    /// reading and the timeout stays under [`Self::timeout_bound`].
    pub open spec fn view_fits(p: PingView) -> bool {
        &&& (p.pending matches Some(t) ==> t <= u64::MAX)
        &&& p.timeout <= Self::timeout_bound()
    }

    /// The bound every timeout stays under: any whole number of seconds a
    /// `u64` can count.
    pub open spec fn timeout_bound() -> nat {
        (u64::MAX as nat) * (NANOS_PER_SEC as nat)
    }

    /// A manager with no pending ping and a timeout of `timeout_secs`.
    pub fn new(timeout_secs: u64) -> (m: Self)
        ensures
            m@.pending is None,
            m@.timeout == timeout_secs as nat * NANOS_PER_SEC as nat,
            Self::view_fits(m@),
    {
        proof {
            assert(timeout_secs as nat * NANOS_PER_SEC as nat <= (u64::MAX as nat) * (NANOS_PER_SEC as nat))
                by (nonlinear_arith)
                requires
                    timeout_secs <= u64::MAX,
            ;
        }
        PingManager { pending: None, timeout_nanos: (timeout_secs as u128) * NANOS_PER_SEC }
    }

    /// Registers a ping sent at `now`. Returns whether it replaced a ping
    /// still waiting for its pong.
    pub fn sent(&mut self, now: u64) -> (replaced: bool)
        ensures
            replaced == (old(self)@.pending is Some),
            final(self)@ == (PingView { pending: Some(now as nat), ..old(self)@ }),
            Self::view_fits(final(self)@),
    {
        proof {
            use_type_invariant(&*self);
        }
        let replaced = self.pending.is_some();
        self.pending = Some(now);
        replaced
    }

    /// Registers a pong: any pong answers the most recent ping, so the
    /// pending ping is cleared.
    pub fn received(&mut self)
        ensures
            final(self)@ == (PingView { pending: None, ..old(self)@ }),
            Self::view_fits(final(self)@),
    {
        proof {
            use_type_invariant(&*self);
        }
        self.pending = None;
    }

    /// Checks at `now` whether the pending ping has timed out; if it has,
    /// clears it and returns `true`.
    pub fn check_timeout(&mut self, now: u64) -> (fired: bool)
        ensures
            fired == timed_out(old(self)@, now as nat),
            final(self)@ == after_check(old(self)@, now as nat),
            Self::view_fits(final(self)@),
    {
        proof {
            use_type_invariant(&*self);
        }
        match self.pending {
            Some(sent_at) => {
                let waited: u64 = if now >= sent_at { now - sent_at } else { 0 };
                if (waited as u128) > self.timeout_nanos {
                    self.pending = None;
                    true
                } else {
                    false
                }
            },
            None => false,
        }
    }

    /// When the pending ping times out, if one is pending.
    pub fn next_timeout_at(&self) -> (t: Option<u128>)
        ensures
            match deadline(self@) {
                Some(d) => t == Some(d as u128),
                None => t is None,
            },
            Self::view_fits(self@),
    {
        proof {
            use_type_invariant(self);
        }
        match self.pending {
            Some(sent_at) => Some(sent_at as u128 + self.timeout_nanos),
            None => None,
        }
    }
}

/// A timeout fires at most once per ping: once a check has fired, no later
/// check fires until another ping is sent.
pub proof fn lemma_timeout_fires_once(p: PingView, first: nat, later: nat)
    requires
        timed_out(p, first),
    ensures
        !timed_out(after_check(p, first), later),
{
}

/// A check fires exactly when it comes after the pending ping's deadline.
pub proof fn lemma_fires_after_deadline(p: PingView, now: nat)
    ensures
        timed_out(p, now) <==> (deadline(p) matches Some(d) && now > d),
{
}

/// Once a pong has been received, no check fires until another ping is sent.
pub proof fn lemma_pong_prevents_timeout(p: PingView, now: nat)
    ensures
        !timed_out(PingView { pending: None, ..p }, now),
{
}

} // verus!
