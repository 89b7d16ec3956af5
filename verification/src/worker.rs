//! What a worker does with the candidates of its partition.
//!
//! A worker walks its list in order. For each candidate it derives the public
//! identity and either compares it with a known target or hands it to the
//! verification loop. Before every ten-thousandth candidate it asks for a look
//! at the memory. Sending, sleeping and stopping the process are the
//! caller's: `Worker::step` says what is to be done next.

use crate::identity::{derive_public_identity, public_identity};
use crate::messages::{CheckBalance, Count};
use vstd::prelude::*;

verus! {

/// A worker looks at the memory before each candidate whose number in its
/// list, counted from one, is a multiple of this.
pub const MEMORY_CHECK_INTERVAL: usize = 10000;

/// How long a worker sleeps before it offers a request again to a mailbox
/// that was full, in seconds.
pub const BACKPRESSURE_PAUSE_SECS: u64 = 5;

/// How candidates are tested.
#[derive(Debug, Clone, PartialEq, Eq)]
pub enum SearchMode {
    /// The address of the key is known: candidates are compared with it here.
    KnownTarget { address: Vec<u8> },
    /// No address is known: every candidate's balance is looked up at this node.
    RemoteOracle { full_node: String },
}

/// What is to be done with one candidate.
#[derive(Debug, Clone, PartialEq, Eq)]
pub enum CandidateAction {
    /// The candidate is the key of the known address: report the pair and
    /// stop the search.
    Found { private_key: Vec<u8>, address: Vec<u8> },
    /// The candidate is dealt with: send the count message.
    Count(Count),
    /// Send the request to the verification loop.
    Verify(CheckBalance),
}

/// What a worker is to do next.
#[derive(Debug, Clone, PartialEq, Eq)]
pub enum WorkerStep {
    /// Wait until the memory pressure is low enough, then step again.
    CheckMemory,
    /// Carry out the action for the candidate just examined, then step again.
    Act(CandidateAction),
    /// The list is done.
    Finished,
}

/// What is to be done after a request was offered to the mailbox.
#[derive(Debug, Clone, Copy, PartialEq, Eq, Structural)]
pub enum SendFollowUp {
    /// The mailbox took the request.
    Delivered,
    /// The mailbox was full: sleep for `seconds`, then offer the same request again.
    RetryAfter { seconds: u64 },
}

/// Whether `action` is the action owed for `candidate` under `mode`.
///
/// With a known target a candidate whose identity is the target is found and
/// any other is only counted. Without one, each candidate that has an identity
/// goes to the verification loop with that identity and the node of the mode.
/// A candidate that is no valid key has no identity: it is passed over and
/// counted.
pub open spec fn is_action_for(action: CandidateAction, candidate: Seq<u8>, mode: SearchMode) -> bool {
    match public_identity(candidate) {
        None => action is Count,
        Some(identity) => match mode {
            SearchMode::KnownTarget { address } => if identity == address@ {
                action matches CandidateAction::Found { private_key, address: found }
                    && private_key@ == candidate && found@ == identity
            } else {
                action is Count
            },
            SearchMode::RemoteOracle { full_node } => {
                action matches CandidateAction::Verify(request) && request.private_key@
                    == candidate && request.address@ == identity && request.full_node@
                    == full_node@
            },
        },
    }
}

/// Whether a look at the memory is due before the candidate at `position`
/// (counted from zero) of a worker's list.
pub open spec fn memory_check_due(position: nat) -> bool {
    (position + 1) % (MEMORY_CHECK_INTERVAL as nat) == 0
}

/// Whether two byte strings are equal.
pub fn same_bytes(left: &Vec<u8>, right: &Vec<u8>) -> (same: bool)
    ensures
        same <==> left@ == right@,
{
    if left.len() != right.len() {
        return false;
    }
    let mut index: usize = 0;
    while index < left.len()
        invariant
            index <= left@.len(),
            left@.len() == right@.len(),
            forall|i: int| 0 <= i < index ==> left@[i] == right@[i],
        decreases left@.len() - index,
    {
        if left[index] != right[index] {
            return false;
        }
        index += 1;
    }
    assert(left@ =~= right@);
    true
}

/// Decides what is to be done with `candidate`.
pub fn examine_candidate(candidate: &Vec<u8>, mode: &SearchMode) -> (action: CandidateAction)
    ensures
        is_action_for(action, candidate@, *mode),
{
    match derive_public_identity(candidate) {
        Err(_) => CandidateAction::Count(Count),
        Ok(identity) => match mode {
            SearchMode::KnownTarget { address } => {
                if same_bytes(&identity, address) {
                    let private_key: Vec<u8> = candidate.clone();
                    assert(private_key@ =~= candidate@);
                    CandidateAction::Found { private_key, address: identity }
                } else {
                    CandidateAction::Count(Count)
                }
            },
            SearchMode::RemoteOracle { full_node } => {
                let private_key: Vec<u8> = candidate.clone();
                assert(private_key@ =~= candidate@);
                CandidateAction::Verify(
                    CheckBalance { private_key, address: identity, full_node: full_node.clone() },
                )
            },
        },
    }
}

/// Decides what follows an offer of a request to the mailbox: a full mailbox
/// holds the worker back for a fixed pause, after which it offers again.
pub fn after_send(accepted: bool) -> (follow_up: SendFollowUp)
    ensures
        accepted ==> follow_up == SendFollowUp::Delivered,
        !accepted ==> follow_up == (SendFollowUp::RetryAfter { seconds: BACKPRESSURE_PAUSE_SECS }),
{
    if accepted {
        SendFollowUp::Delivered
    } else {
        SendFollowUp::RetryAfter { seconds: BACKPRESSURE_PAUSE_SECS }
    }
}

/// A worker: its list of candidates and how far it has come.
pub struct Worker {
    /// The candidates of this worker's partition.
    pub keys: Vec<Vec<u8>>,
    /// How candidates are tested.
    pub mode: SearchMode,
    /// How many candidates have been examined.
    pub position: usize,
    /// Whether the look at the memory that is due before the next candidate
    /// has been asked for.
    pub memory_checked: bool,
}

impl Worker {
    /// The worker has not run past the end of its list.
    pub open spec fn wf(&self) -> bool {
        self.position <= self.keys@.len()
    }

    /// A worker at the head of its list.
    pub fn new(keys: Vec<Vec<u8>>, mode: SearchMode) -> (worker: Worker)
        ensures
            worker.wf(),
            worker.keys == keys,
            worker.mode == mode,
            worker.position == 0,
            !worker.memory_checked,
    {
        Worker { keys, mode, position: 0, memory_checked: false }
    }

    /// How many candidates are still to be examined.
    pub fn remaining(&self) -> (left: usize)
        requires
            self.wf(),
        ensures
            left == self.keys@.len() - self.position,
    {
        self.keys.len() - self.position
    }

    /// Whether a step takes this worker to `after` and hands out `next`.
    ///
    /// At the end of the list the worker is finished and stays as it is. Where
    /// a look at the memory is due and has not been asked for, it is asked
    /// for and the worker stays at its candidate. Otherwise the next candidate
    /// is examined, its action is handed out and the worker moves past it.
    pub open spec fn steps_to(&self, after: Worker, next: WorkerStep) -> bool {
        &&& after.keys == self.keys
        &&& after.mode == self.mode
        &&& if self.position == self.keys@.len() {
            &&& next is Finished
            &&& after.position == self.position
            &&& after.memory_checked == self.memory_checked
        } else if memory_check_due(self.position as nat) && !self.memory_checked {
            &&& next is CheckMemory
            &&& after.position == self.position
            &&& after.memory_checked
        } else {
            &&& next matches WorkerStep::Act(action)
            &&& is_action_for(action, self.keys@[self.position as int]@, self.mode)
            &&& after.position == self.position + 1
            &&& !after.memory_checked
        }
    }

    /// Says what the worker is to do next and moves it on, as
    /// [`Worker::steps_to`] describes.
    pub fn step(&mut self) -> (next: WorkerStep)
        requires
            old(self).wf(),
        ensures
            final(self).wf(),
            old(self).steps_to(*final(self), next),
    {
        if self.position == self.keys.len() {
            return WorkerStep::Finished;
        }
        if (self.position + 1) % MEMORY_CHECK_INTERVAL == 0 && !self.memory_checked {
            self.memory_checked = true;
            return WorkerStep::CheckMemory;
        }
        let action: CandidateAction = examine_candidate(&self.keys[self.position], &self.mode);
        self.position = self.position + 1;
        self.memory_checked = false;
        WorkerStep::Act(action)
    }
}

} // verus!
