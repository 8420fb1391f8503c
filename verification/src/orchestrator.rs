use vstd::prelude::*;

use crate::args::{ConfigError, FailureTolerance};
use crate::record::{clone_opt_string, ServerInfo};

verus! {

/// The orchestrator's memory of one tracked server: its last-known record
/// (absent after a failed poll), the last identifier it reported (kept
/// across failures to detect identifier churn), and how many upcoming
/// cycles it is still to be skipped.
pub struct TrackedServerState {
    pub address: String,
    pub record: Option<ServerInfo>,
    pub identifier: Option<String>,
    pub retry_wait: u16,
}

impl Clone for TrackedServerState {
    /// An exact copy, field for field.
    fn clone(&self) -> (r: Self)
        ensures
            r == *self,
    {
        TrackedServerState {
            address: self.address.clone(),
            record: match &self.record {
                Some(info) => Some(info.clone()),
                None => None,
            },
            identifier: clone_opt_string(&self.identifier),
            retry_wait: self.retry_wait,
        }
    }
}

/// One cycle tick as seen by a single server: a server still in its
/// retry-wait is skipped and counts down by one; a server at zero is polled
/// and left unchanged.
pub open spec fn spec_tick_entry(e: TrackedServerState) -> (bool, TrackedServerState) {
    if e.retry_wait == 0 {
        (true, e)
    } else {
        (false, TrackedServerState { retry_wait: (e.retry_wait - 1) as u16, ..e })
    }
}

/// The state of `e` after `n` cycle ticks in which its server is never
/// polled successfully or unsuccessfully.
pub open spec fn tick_n(e: TrackedServerState, n: nat) -> TrackedServerState
    decreases n,
{
    if n == 0 {
        e
    } else {
        spec_tick_entry(tick_n(e, (n - 1) as nat)).1
    }
}

/// The failure-tolerance policy, judged at the moment one more server has
/// just failed: `None` terminates on the first failure of a cycle, `One`
/// terminates on the second, `All` never terminates per server.
pub open spec fn failure_is_fatal(tolerance: FailureTolerance, prior_failures: nat) -> bool {
    match tolerance {
        FailureTolerance::Zero => true,
        FailureTolerance::One => prior_failures >= 1,
        FailureTolerance::All => false,
    }
}

/// The end-of-cycle rule: a cycle in which every tracked server failed is
/// fatal.  The tolerance mode plays no part in it.
pub open spec fn cycle_end_fatal(failures: nat, total: nat) -> bool {
    failures == total
}

/// A tracked server right after a tolerated failure: its record is no
/// longer known good, its identifier is retained, and a configured nonzero
/// retry-wait is (re)applied.
pub open spec fn spec_entry_after_failure(e: TrackedServerState, retry_wait_cfg: u16) -> TrackedServerState {
    TrackedServerState {
        record: None,
        retry_wait: if retry_wait_cfg != 0 {
            retry_wait_cfg
        } else {
            e.retry_wait
        },
        ..e
    }
}

/// A tracked server right after a successful poll: the new record is
/// stored and the stored identifier follows the record's.
pub open spec fn spec_entry_after_success(e: TrackedServerState, info: ServerInfo) -> TrackedServerState {
    TrackedServerState { record: Some(info), identifier: Some(info.identifier), ..e }
}

/// The aggregate published after each completed cycle: every tracked
/// server's current state, and when the snapshot was built.
pub struct PollSnapshot {
    pub servers: Vec<TrackedServerState>,
    pub timestamp: String,
}

/// The per-cycle polling orchestrator.  It owns the tracked-server states
/// and every decision of the cycle loop; the caller performs the network
/// polls and timer waits between the steps and hands the outcomes back in
/// as plain values.
pub struct Orchestrator {
    pub servers: Vec<TrackedServerState>,
    pub tolerance: FailureTolerance,
    pub retry_wait: u16,
    pub cycle_errors: usize,
}

impl Orchestrator {
    /// Creates the tracked-server states from the configured endpoint
    /// list, refusing an empty list.
    pub fn new(addresses: Vec<String>, tolerance: FailureTolerance, failure_retry_wait: u16) -> (r:
        Result<Orchestrator, ConfigError>)
        ensures
            addresses@.len() == 0 ==> r == Err::<Orchestrator, ConfigError>(ConfigError::NoServers),
            addresses@.len() > 0 ==> r is Ok && {
                let o = r.unwrap();
                &&& o.tolerance == tolerance
                &&& o.retry_wait == failure_retry_wait
                &&& o.cycle_errors == 0
                &&& o.servers@.len() == addresses@.len()
                &&& forall|k: int|
                    0 <= k < addresses@.len() ==> {
                        &&& (#[trigger] o.servers@[k]).address@ == addresses@[k]@
                        &&& o.servers@[k].record is None
                        &&& o.servers@[k].identifier is None
                        &&& o.servers@[k].retry_wait == 0
                    }
            },
    {
        if addresses.len() == 0 {
            return Err(ConfigError::NoServers);
        }
        let mut servers: Vec<TrackedServerState> = Vec::new();
        let mut i: usize = 0;
        while i < addresses.len()
            invariant
                0 <= i <= addresses@.len(),
                servers@.len() == i,
                forall|k: int|
                    0 <= k < i ==> {
                        &&& (#[trigger] servers@[k]).address@ == addresses@[k]@
                        &&& servers@[k].record is None
                        &&& servers@[k].identifier is None
                        &&& servers@[k].retry_wait == 0
                    },
            decreases addresses@.len() - i,
        {
            servers.push(
                TrackedServerState {
                    address: addresses[i].clone(),
                    record: None,
                    identifier: None,
                    retry_wait: 0,
                },
            );
            i += 1;
        }
        Ok(Orchestrator { servers, tolerance, retry_wait: failure_retry_wait, cycle_errors: 0 })
    }

    pub fn server_count(&self) -> (n: usize)
        ensures
            n == self.servers@.len(),
    {
        self.servers.len()
    }

    /// The address a given server is polled at.
    pub fn address_of(&self, i: usize) -> (a: &String)
        requires
            i < self.servers@.len(),
        ensures
            a == self.servers@[i as int].address,
    {
        &self.servers[i].address
    }

    pub fn cycle_error_count(&self) -> (n: usize)
        ensures
            n == self.cycle_errors,
    {
        self.cycle_errors
    }

    /// Opens a cycle: the failure tally starts at zero.
    pub fn begin_cycle(&mut self)
        ensures
            final(self).servers == old(self).servers,
            final(self).tolerance == old(self).tolerance,
            final(self).retry_wait == old(self).retry_wait,
            final(self).cycle_errors == 0,
    {
        self.cycle_errors = 0;
    }

    /// One server's turn within a cycle.  Returns whether the server is due
    /// to be polled now; a server still in its retry-wait is skipped and
    /// its countdown decremented instead.
    pub fn tick_server(&mut self, i: usize) -> (poll: bool)
        requires
            i < old(self).servers@.len(),
        ensures
            final(self).tolerance == old(self).tolerance,
            final(self).retry_wait == old(self).retry_wait,
            final(self).cycle_errors == old(self).cycle_errors,
            poll == spec_tick_entry(old(self).servers@[i as int]).0,
            final(self).servers@ == old(self).servers@.update(
                i as int,
                spec_tick_entry(old(self).servers@[i as int]).1,
            ),
    {
        let w = self.servers[i].retry_wait;
        if w == 0 {
            proof {
                assert(self.servers@ =~= old(self).servers@.update(
                    i as int,
                    spec_tick_entry(old(self).servers@[i as int]).1,
                ));
            }
            true
        } else {
            let mut entry = self.servers.remove(i);
            entry.retry_wait = w - 1;
            self.servers.insert(i, entry);
            proof {
                assert(self.servers@ =~= old(self).servers@.update(
                    i as int,
                    spec_tick_entry(old(self).servers@[i as int]).1,
                ));
            }
            false
        }
    }

    /// Records a successful poll of server `i`: the record is stored and
    /// the stored identifier follows it.  Returns whether the identifier
    /// differs from the previously stored one, which the caller reports as
    /// a non-fatal diagnostic; the failure tally is untouched either way.
    pub fn record_success(&mut self, i: usize, info: ServerInfo) -> (id_changed: bool)
        requires
            i < old(self).servers@.len(),
        ensures
            final(self).tolerance == old(self).tolerance,
            final(self).retry_wait == old(self).retry_wait,
            final(self).cycle_errors == old(self).cycle_errors,
            id_changed == (old(self).servers@[i as int].identifier is Some && old(
                self,
            ).servers@[i as int].identifier.unwrap()@ != info.identifier@),
            final(self).servers@ == old(self).servers@.update(
                i as int,
                spec_entry_after_success(old(self).servers@[i as int], info),
            ),
    {
        let id_changed = match &self.servers[i].identifier {
            Some(prev) => !(*prev == info.identifier),
            None => false,
        };
        let mut entry = self.servers.remove(i);
        let ident = info.identifier.clone();
        entry.record = Some(info);
        entry.identifier = Some(ident);
        self.servers.insert(i, entry);
        proof {
            assert(self.servers@ =~= old(self).servers@.update(
                i as int,
                spec_entry_after_success(old(self).servers@[i as int], info),
            ));
        }
        id_changed
    }

    /// Records a failed poll of server `i` and applies the tolerance
    /// policy.  A fatal verdict leaves the state untouched, as the process
    /// is to terminate; a tolerated failure clears the server's record,
    /// applies the configured retry-wait, and counts towards the cycle's
    /// tally.
    pub fn record_failure(&mut self, i: usize) -> (fatal: bool)
        requires
            i < old(self).servers@.len(),
            old(self).cycle_errors < usize::MAX,
        ensures
            final(self).tolerance == old(self).tolerance,
            final(self).retry_wait == old(self).retry_wait,
            fatal == failure_is_fatal(old(self).tolerance, old(self).cycle_errors as nat),
            fatal ==> *final(self) == *old(self),
            !fatal ==> final(self).cycle_errors == old(self).cycle_errors + 1,
            !fatal ==> final(self).servers@ == old(self).servers@.update(
                i as int,
                spec_entry_after_failure(old(self).servers@[i as int], old(self).retry_wait),
            ),
    {
        let fatal = match self.tolerance {
            FailureTolerance::Zero => true,
            FailureTolerance::One => self.cycle_errors >= 1,
            FailureTolerance::All => false,
        };
        if fatal {
            return true;
        }
        let mut entry = self.servers.remove(i);
        entry.record = None;
        if self.retry_wait != 0 {
            entry.retry_wait = self.retry_wait;
        }
        self.servers.insert(i, entry);
        self.cycle_errors = self.cycle_errors + 1;
        proof {
            assert(self.servers@ =~= old(self).servers@.update(
                i as int,
                spec_entry_after_failure(old(self).servers@[i as int], old(self).retry_wait),
            ));
        }
        false
    }

    /// Closes a cycle: a cycle in which every tracked server failed is
    /// fatal, whatever the tolerance mode.
    pub fn end_cycle(&self) -> (fatal: bool)
        ensures
            fatal == cycle_end_fatal(self.cycle_errors as nat, self.servers@.len()),
    {
        self.cycle_errors == self.servers.len()
    }

    /// Builds the aggregate to publish: every tracked server's current
    /// state, copied exactly, under the given timestamp.
    pub fn snapshot(&self, timestamp: String) -> (snap: PollSnapshot)
        ensures
            snap.timestamp == timestamp,
            snap.servers@.len() == self.servers@.len(),
            forall|k: int|
                0 <= k < self.servers@.len() ==> snap.servers@[k] == self.servers@[k],
    {
        let mut servers: Vec<TrackedServerState> = Vec::new();
        let mut i: usize = 0;
        while i < self.servers.len()
            invariant
                0 <= i <= self.servers@.len(),
                servers@.len() == i,
                forall|k: int| 0 <= k < i ==> servers@[k] == self.servers@[k],
            decreases self.servers@.len() - i,
        {
            servers.push(self.servers[i].clone());
            i += 1;
        }
        PollSnapshot { servers, timestamp }
    }
}

/// Under tolerance `None`, any failure is fatal at once, however many
/// failures the cycle already saw.
pub proof fn lemma_tolerance_none_fatal(prior_failures: nat)
    ensures
        failure_is_fatal(FailureTolerance::Zero, prior_failures),
{
}

/// Under tolerance `One`, the first failure of a cycle is tolerated and
/// any later failure of the same cycle is fatal.
pub proof fn lemma_tolerance_one(prior_failures: nat)
    ensures
        !failure_is_fatal(FailureTolerance::One, 0),
        prior_failures >= 1 ==> failure_is_fatal(FailureTolerance::One, prior_failures),
{
}

/// Under tolerance `All`, no per-server failure is ever fatal by itself.
pub proof fn lemma_tolerance_all_never_fatal(prior_failures: nat)
    ensures
        !failure_is_fatal(FailureTolerance::All, prior_failures),
{
}

/// A cycle in which every tracked server failed is fatal under every
/// tolerance mode: the end-of-cycle rule does not consult the mode.
pub proof fn lemma_all_down_always_fatal(tolerance: FailureTolerance, total: nat)
    ensures
        cycle_end_fatal(total, total),
{
}

/// Within each of the next `retry_wait` cycle ticks, a waiting server is
/// skipped, its countdown falling by exactly one per tick.
pub proof fn lemma_retry_wait_skips(e: TrackedServerState, n: nat)
    requires
        n < e.retry_wait,
    ensures
        !spec_tick_entry(tick_n(e, n)).0,
        tick_n(e, n).retry_wait == e.retry_wait - n,
    decreases n,
{
    if n > 0 {
        lemma_retry_wait_skips(e, (n - 1) as nat);
    }
}

/// After exactly `retry_wait` skipped ticks the countdown reaches zero and
/// the server is polled again on the following tick.
pub proof fn lemma_retry_wait_expires(e: TrackedServerState)
    ensures
        tick_n(e, e.retry_wait as nat).retry_wait == 0,
        spec_tick_entry(tick_n(e, e.retry_wait as nat)).0,
{
    if e.retry_wait > 0 {
        lemma_retry_wait_skips(e, (e.retry_wait - 1) as nat);
    }
}

/// A successful poll stores the new record and makes the stored identifier
/// follow the record's, identifier churn included; it is no failure.
pub proof fn lemma_success_updates_identifier(e: TrackedServerState, info: ServerInfo)
    ensures
        spec_entry_after_success(e, info).identifier == Some(info.identifier),
        spec_entry_after_success(e, info).record == Some(info),
        spec_entry_after_success(e, info).address == e.address,
        spec_entry_after_success(e, info).retry_wait == e.retry_wait,
{
}

} // verus!
