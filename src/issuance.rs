use vstd::prelude::*;
use vstd::string::*;
use crate::dns::DnsError;
use crate::poll::{decide, ChallengeStatus, PollDecision, Poller, POLL_INTERVAL_SECS};

verus! {

/// Why one issuance attempt failed.
pub enum IssueError {
    /// A transport failure.
    Network(String),
    /// The CA rejected the account or its EAB credentials.
    Auth(String),
    /// The CA answered in an unexpected state or shape.
    Protocol(String),
    /// The challenge was found invalid.
    Validation,
    /// The challenge stayed in progress through every poll.
    Timeout,
    /// The DNS provider refused to create the record.
    Provider { status: u16, body: String },
    /// The certificate or key could not be written.
    Storage(String),
}

/// Where an issuance attempt stands: the action it last asked for.
#[derive(Clone, Copy, Debug, PartialEq, Eq, Structural)]
pub enum Phase {
    ObtainingChallenge,
    CreatingRecord,
    Propagating,
    StartingValidation,
    Polling,
    Finalizing,
    Storing,
    DeletingRecord,
    Finished,
}

/// The outcome of the action last asked for.
pub enum Event {
    Done,
    Failed(IssueError),
    /// The challenge status that a fetch reported.
    Status(ChallengeStatus),
}

/// The next thing to do.
pub enum Action {
    /// Publish the challenge record.
    CreateRecord,
    /// Sleep while the record propagates.
    WaitPropagation { secs: u64 },
    /// Ask the CA to validate the challenge.
    TriggerValidation,
    /// Sleep, then fetch the challenge status.
    FetchStatusAfter { secs: u64 },
    /// Generate the certificate key, submit the CSR, fetch the chain.
    FinalizeOrder,
    /// Persist the certificate and key.
    StoreCertificate,
    /// Remove the challenge record; a failure here is not reported.
    DeleteRecord,
    /// The attempt is over with this result.
    Finish(Result<(), IssueError>),
}

/// The issuance error for a failure of the DNS provider.
pub fn issue_error_from_dns(e: DnsError) -> (r: IssueError)
    ensures
        r matches IssueError::Provider { status, body } ==> e == (DnsError::Provider { status, body }),
        e matches DnsError::Provider { status, body } ==> r == (IssueError::Provider { status, body }),
        e is MalformedListing ==> (r matches IssueError::Protocol(m) && m@ == "malformed DNS record listing"@),
{
    match e {
        DnsError::Provider { status, body } => IssueError::Provider { status, body },
        DnsError::MalformedListing => IssueError::Protocol(
            String::from_str("malformed DNS record listing"),
        ),
    }
}

pub const PROPAGATION_DELAY_SECS: u64 = 30;

/// One attempt to issue a certificate for one domain. It starts by obtaining
/// the account, order and dns-01 challenge; each later step is asked for by
/// `on_event`.
pub struct Issuance {
    pub phase: Phase,
    /// The error that the attempt ends with once the record is cleaned up.
    pub pending: Option<IssueError>,
    pub poller: Poller,
}

pub open spec fn with_phase(s: Issuance, phase: Phase, pending: Option<IssueError>) -> Issuance {
    Issuance { phase, pending, poller: s.poller }
}

pub open spec fn cleanup(s: Issuance, err: Option<IssueError>) -> (Issuance, Action) {
    (with_phase(s, Phase::DeletingRecord, err), Action::DeleteRecord)
}

pub open spec fn end(s: Issuance, res: Result<(), IssueError>) -> (Issuance, Action) {
    (with_phase(s, Phase::Finished, None), Action::Finish(res))
}

/// The transition on event `e`. Before the record exists a failure ends the
/// attempt at once; after, every way out passes through `DeleteRecord`.
pub open spec fn step(s: Issuance, e: Event) -> (Issuance, Action) {
    match e {
        Event::Failed(err) => match s.phase {
            Phase::ObtainingChallenge | Phase::CreatingRecord => end(s, Err(err)),
            Phase::DeletingRecord => end(
                s,
                match s.pending {
                    Some(p) => Err(p),
                    None => Ok(()),
                },
            ),
            _ => cleanup(s, Some(err)),
        },
        Event::Done => match s.phase {
            Phase::ObtainingChallenge => (
                with_phase(s, Phase::CreatingRecord, None),
                Action::CreateRecord,
            ),
            Phase::CreatingRecord => (
                with_phase(s, Phase::Propagating, None),
                Action::WaitPropagation { secs: PROPAGATION_DELAY_SECS },
            ),
            Phase::Propagating => (
                with_phase(s, Phase::StartingValidation, None),
                Action::TriggerValidation,
            ),
            Phase::StartingValidation => (
                with_phase(s, Phase::Polling, None),
                Action::FetchStatusAfter { secs: 0 },
            ),
            Phase::Finalizing => (with_phase(s, Phase::Storing, None), Action::StoreCertificate),
            Phase::Storing => cleanup(s, None),
            _ => end(
                s,
                match s.pending {
                    Some(p) => Err(p),
                    None => Ok(()),
                },
            ),
        },
        Event::Status(st) => {
            let fetches = s.poller.fetches + 1;
            let polled = Issuance {
                phase: Phase::Polling,
                pending: None,
                poller: Poller { fetches: fetches as u32, max_attempts: s.poller.max_attempts },
            };
            match decide(st, fetches as nat, s.poller.max_attempts as nat) {
                PollDecision::Valid => (
                    with_phase(polled, Phase::Finalizing, None),
                    Action::FinalizeOrder,
                ),
                PollDecision::Invalid => cleanup(polled, Some(IssueError::Validation)),
                PollDecision::TimedOut => cleanup(polled, Some(IssueError::Timeout)),
                PollDecision::Retry => (polled, Action::FetchStatusAfter { secs: POLL_INTERVAL_SECS }),
            }
        },
    }
}

impl Issuance {
    pub open spec fn before_polling(&self) -> bool {
        ||| self.phase == Phase::ObtainingChallenge
        ||| self.phase == Phase::CreatingRecord
        ||| self.phase == Phase::Propagating
        ||| self.phase == Phase::StartingValidation
    }

    pub open spec fn wf(&self) -> bool {
        &&& self.poller.max_attempts >= 1
        &&& self.phase == Phase::Polling ==> self.poller.may_fetch()
        &&& self.before_polling() ==> self.poller.fetches == 0
        &&& self.phase != Phase::DeletingRecord ==> self.pending is None
    }

    /// Events that the current phase can receive: a status only while
    /// polling, where success comes as a status; none once finished.
    pub open spec fn accepts(&self, e: Event) -> bool {
        &&& self.phase != Phase::Finished
        &&& e is Status ==> self.phase == Phase::Polling
        &&& self.phase == Phase::Polling ==> !(e is Done)
    }

    /// The challenge record has been created and not yet handed to cleanup.
    pub open spec fn record_live(&self) -> bool {
        ||| self.phase == Phase::Propagating
        ||| self.phase == Phase::StartingValidation
        ||| self.phase == Phase::Polling
        ||| self.phase == Phase::Finalizing
        ||| self.phase == Phase::Storing
    }

    /// A new attempt that polls the challenge at most `max_attempts` times.
    pub fn new(max_attempts: u32) -> (r: Issuance)
        requires
            max_attempts >= 1,
        ensures
            r.wf(),
            r.phase == Phase::ObtainingChallenge,
            r.pending is None,
            r.poller.fetches == 0,
            r.poller.max_attempts == max_attempts,
    {
        Issuance { phase: Phase::ObtainingChallenge, pending: None, poller: Poller::new(max_attempts) }
    }

    fn finish_pending(&mut self) -> (r: Action)
        ensures
            r == Action::Finish(
                match old(self).pending {
                    Some(p) => Err(p),
                    None => Ok(()),
                },
            ),
            *final(self) == with_phase(*old(self), Phase::Finished, None),
    {
        self.phase = Phase::Finished;
        match self.pending.take() {
            Some(p) => Action::Finish(Err(p)),
            None => Action::Finish(Ok(())),
        }
    }

    /// Takes the outcome of the last action and returns the next one.
    pub fn on_event(&mut self, e: Event) -> (r: Action)
        requires
            old(self).wf(),
            old(self).accepts(e),
        ensures
            final(self).wf(),
            (*final(self), r) == step(*old(self), e),
    {
        match e {
            Event::Failed(err) => match self.phase {
                Phase::ObtainingChallenge | Phase::CreatingRecord => {
                    self.phase = Phase::Finished;
                    Action::Finish(Err(err))
                },
                Phase::DeletingRecord => self.finish_pending(),
                _ => {
                    self.phase = Phase::DeletingRecord;
                    self.pending = Some(err);
                    Action::DeleteRecord
                },
            },
            Event::Done => match self.phase {
                Phase::ObtainingChallenge => {
                    self.phase = Phase::CreatingRecord;
                    Action::CreateRecord
                },
                Phase::CreatingRecord => {
                    self.phase = Phase::Propagating;
                    Action::WaitPropagation { secs: PROPAGATION_DELAY_SECS }
                },
                Phase::Propagating => {
                    self.phase = Phase::StartingValidation;
                    Action::TriggerValidation
                },
                Phase::StartingValidation => {
                    self.phase = Phase::Polling;
                    Action::FetchStatusAfter { secs: 0 }
                },
                Phase::Finalizing => {
                    self.phase = Phase::Storing;
                    Action::StoreCertificate
                },
                Phase::Storing => {
                    self.phase = Phase::DeletingRecord;
                    Action::DeleteRecord
                },
                _ => self.finish_pending(),
            },
            Event::Status(st) => match self.poller.observe(st) {
                PollDecision::Valid => {
                    self.phase = Phase::Finalizing;
                    Action::FinalizeOrder
                },
                PollDecision::Invalid => {
                    self.phase = Phase::DeletingRecord;
                    self.pending = Some(IssueError::Validation);
                    Action::DeleteRecord
                },
                PollDecision::TimedOut => {
                    self.phase = Phase::DeletingRecord;
                    self.pending = Some(IssueError::Timeout);
                    Action::DeleteRecord
                },
                PollDecision::Retry => Action::FetchStatusAfter { secs: POLL_INTERVAL_SECS },
            },
        }
    }
}

/// While the challenge record exists, no event ends the attempt: each one
/// either keeps the record or asks for its deletion.
pub proof fn lemma_record_deleted_before_finish(s: Issuance, e: Event)
    requires
        s.wf(),
        s.accepts(e),
        s.record_live(),
    ensures
        !(step(s, e).1 is Finish),
        step(s, e).0.record_live() || (step(s, e).0.phase == Phase::DeletingRecord
            && step(s, e).1 is DeleteRecord),
{
}

/// Cleanup ends the attempt with the error that sent it there, whatever the
/// deletion itself came to; after a successful store it ends in success.
pub proof fn lemma_cleanup_keeps_outcome(s: Issuance, e: Event)
    requires
        s.wf(),
        s.accepts(e),
        s.phase == Phase::DeletingRecord,
    ensures
        step(s, e).0.phase == Phase::Finished,
        step(s, e).1 == Action::Finish(
            match s.pending {
                Some(p) => Err(p),
                None => Ok(()),
            },
        ),
{
}

/// The order is finalized only on a `valid` status; an `invalid` status goes
/// to cleanup with a validation error.
pub proof fn lemma_finalize_only_when_valid(s: Issuance, e: Event)
    requires
        s.wf(),
        s.accepts(e),
    ensures
        step(s, e).1 is FinalizeOrder ==> s.phase == Phase::Polling && e == Event::Status(
            ChallengeStatus::Valid,
        ),
        e == Event::Status(ChallengeStatus::Invalid) ==> {
            &&& step(s, e).0.phase == Phase::DeletingRecord
            &&& step(s, e).0.pending == Some(IssueError::Validation)
            &&& step(s, e).1 is DeleteRecord
        },
{
}

/// A failure before the record exists ends the attempt at once with that
/// failure, and no deletion is asked for.
pub proof fn lemma_failure_before_record_needs_no_cleanup(s: Issuance, err: IssueError)
    requires
        s.wf(),
        s.phase == Phase::ObtainingChallenge || s.phase == Phase::CreatingRecord,
    ensures
        step(s, Event::Failed(err)).1 == Action::Finish(Err(err)),
        step(s, Event::Failed(err)).0.phase == Phase::Finished,
{
}

} // verus!
