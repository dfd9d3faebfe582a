use vstd::prelude::*;

verus! {

/// Status of a challenge as the CA reports it.
#[derive(Clone, Copy, Debug, PartialEq, Eq, Structural)]
pub enum ChallengeStatus {
    Pending,
    Processing,
    Valid,
    Invalid,
}

/// What to do after one status fetch.
#[derive(Clone, Copy, Debug, PartialEq, Eq, Structural)]
pub enum PollDecision {
    Valid,
    Invalid,
    /// Still in progress: wait the poll interval, then fetch again.
    Retry,
    /// Still in progress and the attempts are used up.
    TimedOut,
}

pub const DEFAULT_MAX_ATTEMPTS: u32 = 10;

pub const POLL_INTERVAL_SECS: u64 = 5;

/// The decision after the `fetches`-th fetch reported `status`.
pub open spec fn decide(status: ChallengeStatus, fetches: nat, max_attempts: nat) -> PollDecision {
    match status {
        ChallengeStatus::Valid => PollDecision::Valid,
        ChallengeStatus::Invalid => PollDecision::Invalid,
        _ => if fetches >= max_attempts {
            PollDecision::TimedOut
        } else {
            PollDecision::Retry
        },
    }
}

/// Where polling ends, and after how many fetches, when fetch `i + 1` reports
/// `reports[i]` and `done` fetches have been made.
pub open spec fn poll_run(reports: Seq<ChallengeStatus>, max_attempts: nat, done: nat) -> (
    PollDecision,
    nat,
)
    decreases max_attempts - done,
{
    if done >= max_attempts || done >= reports.len() {
        (PollDecision::TimedOut, done)
    } else {
        match decide(reports[done as int], done + 1, max_attempts) {
            PollDecision::Retry => poll_run(reports, max_attempts, done + 1),
            d => (d, done + 1),
        }
    }
}

pub open spec fn in_progress(s: ChallengeStatus) -> bool {
    s is Pending || s is Processing
}

/// Counts status fetches of one challenge against a bound.
pub struct Poller {
    pub fetches: u32,
    pub max_attempts: u32,
}

impl Poller {
    pub open spec fn may_fetch(&self) -> bool {
        self.fetches < self.max_attempts
    }

    pub fn new(max_attempts: u32) -> (r: Poller)
        ensures
            r.fetches == 0,
            r.max_attempts == max_attempts,
    {
        Poller { fetches: 0, max_attempts }
    }

    /// Records one fetch that reported `status` and decides what follows.
    pub fn observe(&mut self, status: ChallengeStatus) -> (r: PollDecision)
        requires
            old(self).may_fetch(),
        ensures
            final(self).fetches == old(self).fetches + 1,
            final(self).max_attempts == old(self).max_attempts,
            r == decide(status, final(self).fetches as nat, final(self).max_attempts as nat),
    {
        self.fetches = self.fetches + 1;
        match status {
            ChallengeStatus::Valid => PollDecision::Valid,
            ChallengeStatus::Invalid => PollDecision::Invalid,
            _ => if self.fetches >= self.max_attempts {
                PollDecision::TimedOut
            } else {
                PollDecision::Retry
            },
        }
    }
}

/// Polls a challenge whose fetches report `reports` in turn, and returns the
/// decision that ended polling with the number of fetches made.
pub fn poll_until_decided(reports: &Vec<ChallengeStatus>, max_attempts: u32) -> (r: (
    PollDecision,
    u32,
))
    ensures
        (r.0, r.1 as nat) == poll_run(reports@, max_attempts as nat, 0),
{
    let mut poller = Poller::new(max_attempts);
    loop
        invariant
            poller.max_attempts == max_attempts,
            poll_run(reports@, max_attempts as nat, 0) == poll_run(
                reports@,
                max_attempts as nat,
                poller.fetches as nat,
            ),
        decreases max_attempts - poller.fetches,
    {
        if poller.fetches >= max_attempts || poller.fetches as usize >= reports.len() {
            return (PollDecision::TimedOut, poller.fetches);
        }
        let d = poller.observe(reports[poller.fetches as usize]);
        if d != PollDecision::Retry {
            return (d, poller.fetches);
        }
    }
}

/// A challenge that reports in-progress for its first `n - 1` fetches and
/// `valid` on fetch `n`, with `n` within the bound, ends polling as valid
/// after exactly `n` fetches.
pub proof fn lemma_valid_after_n_fetches(reports: Seq<ChallengeStatus>, max_attempts: nat, n: nat)
    requires
        1 <= n <= max_attempts,
        n <= reports.len(),
        forall|i: int| 0 <= i < n - 1 ==> in_progress(#[trigger] reports[i]),
        reports[n - 1] == ChallengeStatus::Valid,
    ensures
        poll_run(reports, max_attempts, 0) == (PollDecision::Valid, n),
{
    lemma_valid_from(reports, max_attempts, n, 0);
}

proof fn lemma_valid_from(reports: Seq<ChallengeStatus>, max_attempts: nat, n: nat, done: nat)
    requires
        1 <= n <= max_attempts,
        n <= reports.len(),
        done < n,
        forall|i: int| 0 <= i < n - 1 ==> in_progress(#[trigger] reports[i]),
        reports[n - 1] == ChallengeStatus::Valid,
    ensures
        poll_run(reports, max_attempts, done) == (PollDecision::Valid, n),
    decreases n - done,
{
    if done + 1 < n {
        assert(in_progress(reports[done as int]));
        lemma_valid_from(reports, max_attempts, n, done + 1);
    }
}

/// A challenge that never leaves in-progress within the bound ends polling
/// timed out after exactly `max_attempts` fetches.
pub proof fn lemma_timeout_after_max_fetches(reports: Seq<ChallengeStatus>, max_attempts: nat)
    requires
        max_attempts <= reports.len(),
        forall|i: int| 0 <= i < max_attempts ==> in_progress(#[trigger] reports[i]),
    ensures
        poll_run(reports, max_attempts, 0) == (PollDecision::TimedOut, max_attempts),
{
    lemma_timeout_from(reports, max_attempts, 0);
}

proof fn lemma_timeout_from(reports: Seq<ChallengeStatus>, max_attempts: nat, done: nat)
    requires
        done <= max_attempts <= reports.len(),
        forall|i: int| 0 <= i < max_attempts ==> in_progress(#[trigger] reports[i]),
    ensures
        poll_run(reports, max_attempts, done) == (PollDecision::TimedOut, max_attempts),
    decreases max_attempts - done,
{
    if done < max_attempts {
        assert(in_progress(reports[done as int]));
        lemma_timeout_from(reports, max_attempts, done + 1);
    }
}

} // verus!
