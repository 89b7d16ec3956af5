//! The life of one verification request.
//!
//! A request waits in the mailbox, is checked against the balance oracle, and
//! is then resolved or, where the query failed, sent back to the mailbox after
//! a random delay. The delay spreads the retries of many failed requests so
//! that they do not reach the oracle together. The caller owns the mailbox,
//! the query and the timer; [`Verification`] keeps the state and says what
//! follows each event.

use crate::messages::{CheckBalance, Count};
use rand::distributions::{Distribution, Uniform};
use vstd::prelude::*;

verus! {

/// How many requests the mailbox of the verification loop holds.
pub const MAILBOX_CAPACITY: usize = 1000;

/// After how long a balance query is given up, in seconds.
pub const QUERY_TIMEOUT_SECS: u64 = 1;

/// The delay before a retry is drawn from the milliseconds below this.
pub const RETRY_JITTER_MS: u64 = 10000;

/// Where a request stands.
#[derive(Debug, Clone, Copy, PartialEq, Eq, Structural)]
pub enum Phase {
    /// In the mailbox, waiting for its turn.
    Queued,
    /// The balance query is under way.
    Checking,
    /// The last query failed; the request waits out its delay.
    TransientFailure,
    /// The address holds nothing: the request is done.
    ResolvedEmpty,
    /// The address holds funds: the search is over.
    ResolvedFound,
}

/// What a balance query says about an address.
#[derive(Debug, Clone, Copy, PartialEq, Eq, Structural)]
pub enum Verdict {
    /// The balance is not zero.
    Funded,
    /// The balance is zero.
    Empty,
    /// The query failed: network error or timeout.
    Failure,
}

/// What came of a balance query.
#[derive(Debug, Clone, PartialEq, Eq)]
pub enum QueryOutcome {
    /// The balance, as a number written in bytes with the most significant first.
    Balance(Vec<u8>),
    /// The query failed.
    Failed,
}

/// What the caller is to do after a query has come back.
#[derive(Debug, Clone, PartialEq, Eq)]
pub enum Directive {
    /// The key has been found: report the pair and stop the search.
    Found { private_key: Vec<u8>, address: Vec<u8> },
    /// Nothing at this address: send the count message and drop the request.
    Count(Count),
    /// Wait for `delay_ms` milliseconds, then put the same request back into
    /// the mailbox.
    RetryAfter { delay_ms: u64 },
    /// No query was under way: nothing to do.
    Ignore,
}

/// A request together with its state.
pub struct Verification {
    /// The request as the worker sent it.
    pub request: CheckBalance,
    /// Where the request stands.
    pub phase: Phase,
    /// How often the request has been sent back after a failed query. The
    /// count stops at the largest number it can hold.
    pub retries: u64,
}

/// Whether an amount is zero: none of its bytes is set.
pub open spec fn amount_is_zero(amount: Seq<u8>) -> bool {
    forall|i: int| 0 <= i < amount.len() ==> amount[i] == 0u8
}

/// The verdict that an outcome carries.
pub open spec fn verdict_of(outcome: QueryOutcome) -> Verdict {
    match outcome {
        QueryOutcome::Balance(amount) => if amount_is_zero(amount@) {
            Verdict::Empty
        } else {
            Verdict::Funded
        },
        QueryOutcome::Failed => Verdict::Failure,
    }
}

/// Where a request stands after its turn has come: a queued request is being
/// checked, any other stays where it is.
pub open spec fn phase_after_begin(phase: Phase) -> Phase {
    if phase is Queued {
        Phase::Checking
    } else {
        phase
    }
}

/// Where a request stands after a query has come back with `verdict`. Only a
/// request that is being checked moves.
pub open spec fn phase_after_verdict(phase: Phase, verdict: Verdict) -> Phase {
    if phase is Checking {
        match verdict {
            Verdict::Funded => Phase::ResolvedFound,
            Verdict::Empty => Phase::ResolvedEmpty,
            Verdict::Failure => Phase::TransientFailure,
        }
    } else {
        phase
    }
}

/// The retry count after a query has come back with `verdict`: one more after
/// a failed query of a request that was being checked, up to the largest
/// number the counter holds.
pub open spec fn retries_after_verdict(phase: Phase, retries: nat, verdict: Verdict) -> nat {
    if phase is Checking && verdict is Failure && retries < u64::MAX {
        retries + 1
    } else {
        retries
    }
}

/// Where a request stands after its delay has run out: a failed request is
/// back in the mailbox, any other stays where it is.
pub open spec fn phase_after_requeue(phase: Phase) -> Phase {
    if phase is TransientFailure {
        Phase::Queued
    } else {
        phase
    }
}

/// Whether a request is done.
pub open spec fn is_resolved(phase: Phase) -> bool {
    phase is ResolvedEmpty || phase is ResolvedFound
}

/// Phase and retry count of a request: what its progress consists of.
pub struct Progress {
    pub phase: Phase,
    pub retries: nat,
}

/// The progress of a request that has just been sent.
pub open spec fn fresh() -> Progress {
    Progress { phase: Phase::Queued, retries: 0 }
}

/// One turn of a request: it is taken from the mailbox, the query comes back
/// with `verdict`, and after a failure the delay runs out and the request is
/// back in the mailbox.
pub open spec fn after_turn(progress: Progress, verdict: Verdict) -> Progress {
    let checking = phase_after_begin(progress.phase);
    Progress {
        phase: phase_after_requeue(phase_after_verdict(checking, verdict)),
        retries: retries_after_verdict(checking, progress.retries, verdict),
    }
}

/// The progress of a request after one turn for each of `verdicts`, in order.
pub open spec fn after_turns(progress: Progress, verdicts: Seq<Verdict>) -> Progress
    decreases verdicts.len(),
{
    if verdicts.len() == 0 {
        progress
    } else {
        after_turn(after_turns(progress, verdicts.drop_last()), verdicts.last())
    }
}

/// In how many of the turns for `verdicts` the request was resolved.
pub open spec fn resolutions(progress: Progress, verdicts: Seq<Verdict>) -> nat
    decreases verdicts.len(),
{
    if verdicts.len() == 0 {
        0
    } else {
        let before = after_turns(progress, verdicts.drop_last());
        let after = after_turn(before, verdicts.last());
        let earlier = resolutions(progress, verdicts.drop_last());
        if !is_resolved(before.phase) && is_resolved(after.phase) {
            earlier + 1
        } else {
            earlier
        }
    }
}

/// `count` failed queries in a row.
pub open spec fn failures(count: nat) -> Seq<Verdict> {
    Seq::new(count, |i: int| Verdict::Failure)
}

/// After `count` failed queries a fresh request is back in the mailbox, has
/// been sent back `count` times and has not been resolved.
pub proof fn lemma_failures_only_retry(count: nat)
    requires
        count <= u64::MAX,
    ensures
        after_turns(fresh(), failures(count)) == (Progress { phase: Phase::Queued, retries: count }),
        resolutions(fresh(), failures(count)) == 0,
    decreases count,
{
    if count > 0 {
        lemma_failures_only_retry((count - 1) as nat);
        assert(failures(count).drop_last() =~= failures((count - 1) as nat));
    }
}

/// A request whose query fails `count` times and then succeeds is resolved
/// exactly once, after `count` retries.
///
/// After the failed queries and the one that came back with `last`, the
/// request is resolved as `last` says, its retry count is `count`, and of all
/// the turns only one resolved it.
pub proof fn lemma_retry_until_success(count: nat, last: Verdict)
    requires
        count <= u64::MAX,
        !(last is Failure),
    ensures
        after_turns(fresh(), failures(count).push(last)).phase == phase_after_verdict(
            Phase::Checking,
            last,
        ),
        is_resolved(after_turns(fresh(), failures(count).push(last)).phase),
        after_turns(fresh(), failures(count).push(last)).retries == count,
        resolutions(fresh(), failures(count).push(last)) == 1,
{
    lemma_failures_only_retry(count);
    assert(failures(count).push(last).drop_last() =~= failures(count));
}

/// A resolved request stays as it is, whatever comes back later.
pub proof fn lemma_resolved_is_final(progress: Progress, verdict: Verdict)
    requires
        is_resolved(progress.phase),
    ensures
        after_turn(progress, verdict) == progress,
{
}

/// Calls `Uniform::new(low, high)` of `rand::distributions` and draws one
/// sample from it with the generator of the thread (`rand::thread_rng`).
///
/// Trusted: the sample lies in the half-open range from `low` to `high`.
/// `Uniform::new` panics on an empty range, which `requires` leaves out.
#[verifier::external_body]
fn sample_uniform(low: u64, high: u64) -> (sample: u64)
    requires
        low < high,
    ensures
        low <= sample < high,
{
    Uniform::new(low, high).sample(&mut rand::thread_rng())
}

/// Whether the balance `amount` is zero.
pub fn is_zero_amount(amount: &Vec<u8>) -> (zero: bool)
    ensures
        zero == amount_is_zero(amount@),
{
    let mut index: usize = 0;
    while index < amount.len()
        invariant
            index <= amount@.len(),
            forall|i: int| 0 <= i < index ==> amount@[i] == 0u8,
        decreases amount@.len() - index,
    {
        if amount[index] != 0 {
            return false;
        }
        index += 1;
    }
    true
}

/// Says what a query outcome means for the address.
pub fn classify(outcome: &QueryOutcome) -> (verdict: Verdict)
    ensures
        verdict == verdict_of(*outcome),
{
    match outcome {
        QueryOutcome::Balance(amount) => {
            if is_zero_amount(amount) {
                Verdict::Empty
            } else {
                Verdict::Funded
            }
        },
        QueryOutcome::Failed => Verdict::Failure,
    }
}

impl Verification {
    /// Phase and retry count of this request.
    pub open spec fn progress(&self) -> Progress {
        Progress { phase: self.phase, retries: self.retries as nat }
    }

    /// Whether `directive` is what `self`, as it stood before the outcome,
    /// owes for `verdict`, the delay of a retry being `delay_ms`.
    pub open spec fn owes(&self, verdict: Verdict, delay_ms: u64, directive: Directive) -> bool {
        if self.phase is Checking {
            match verdict {
                Verdict::Funded => directive matches Directive::Found { private_key, address }
                    && private_key@ == self.request.private_key@ && address@
                    == self.request.address@,
                Verdict::Empty => directive is Count,
                Verdict::Failure => directive == (Directive::RetryAfter { delay_ms }),
            }
        } else {
            directive is Ignore
        }
    }

    /// A request as it arrives in the mailbox.
    pub fn new(request: CheckBalance) -> (verification: Verification)
        ensures
            verification.request == request,
            verification.progress() == fresh(),
    {
        Verification { request, phase: Phase::Queued, retries: 0 }
    }

    /// The request's turn has come. Returns whether the balance query is to be
    /// issued: it is for a request that was waiting in the mailbox.
    pub fn begin(&mut self) -> (query: bool)
        ensures
            query == (old(self).phase is Queued),
            final(self).phase == phase_after_begin(old(self).phase),
            final(self).retries == old(self).retries,
            final(self).request == old(self).request,
    {
        match self.phase {
            Phase::Queued => {
                self.phase = Phase::Checking;
                true
            },
            _ => false,
        }
    }

    /// The query has come back: moves the request on and says what is owed.
    /// A retry is delayed by `delay_ms` milliseconds.
    pub fn conclude_with_delay(&mut self, outcome: &QueryOutcome, delay_ms: u64) -> (directive:
        Directive)
        ensures
            final(self).request == old(self).request,
            final(self).phase == phase_after_verdict(old(self).phase, verdict_of(*outcome)),
            final(self).retries == retries_after_verdict(
                old(self).phase,
                old(self).retries as nat,
                verdict_of(*outcome),
            ),
            old(self).owes(verdict_of(*outcome), delay_ms, directive),
    {
        match self.phase {
            Phase::Checking => {},
            _ => {
                return Directive::Ignore;
            },
        }
        match classify(outcome) {
            Verdict::Funded => {
                self.phase = Phase::ResolvedFound;
                let private_key: Vec<u8> = self.request.private_key.clone();
                let address: Vec<u8> = self.request.address.clone();
                assert(private_key@ =~= self.request.private_key@);
                assert(address@ =~= self.request.address@);
                Directive::Found { private_key, address }
            },
            Verdict::Empty => {
                self.phase = Phase::ResolvedEmpty;
                Directive::Count(Count)
            },
            Verdict::Failure => {
                self.phase = Phase::TransientFailure;
                if self.retries < u64::MAX {
                    self.retries = self.retries + 1;
                }
                Directive::RetryAfter { delay_ms }
            },
        }
    }

    /// The query has come back: moves the request on and says what is owed.
    /// The delay of a retry is drawn at random from the milliseconds below
    /// [`RETRY_JITTER_MS`].
    pub fn conclude(&mut self, outcome: &QueryOutcome) -> (directive: Directive)
        ensures
            final(self).request == old(self).request,
            final(self).phase == phase_after_verdict(old(self).phase, verdict_of(*outcome)),
            final(self).retries == retries_after_verdict(
                old(self).phase,
                old(self).retries as nat,
                verdict_of(*outcome),
            ),
            exists|delay_ms: u64|
                delay_ms < RETRY_JITTER_MS && #[trigger] old(self).owes(
                    verdict_of(*outcome),
                    delay_ms,
                    directive,
                ),
    {
        let delay_ms: u64 = match outcome {
            QueryOutcome::Failed => sample_uniform(0, RETRY_JITTER_MS),
            QueryOutcome::Balance(_) => 0,
        };
        self.conclude_with_delay(outcome, delay_ms)
    }

    /// The delay has run out. Returns whether the request is to be put back
    /// into the mailbox: it is for a request whose query had failed.
    pub fn requeue(&mut self) -> (resend: bool)
        ensures
            resend == (old(self).phase is TransientFailure),
            final(self).phase == phase_after_requeue(old(self).phase),
            final(self).retries == old(self).retries,
            final(self).request == old(self).request,
    {
        match self.phase {
            Phase::TransientFailure => {
                self.phase = Phase::Queued;
                true
            },
            _ => false,
        }
    }
}

} // verus!
