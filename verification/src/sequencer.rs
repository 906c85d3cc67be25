//! The step sequencer: drives the ordered install steps and halts at the
//! first failure.
//!
//! Both execution modes share this state machine. The unattended mode
//! advances it in a tight loop; the attended mode advances it once per
//! externally scheduled tick. A failure freezes the machine with the
//! failing step and its message; re-running the whole sequence later is
//! safe because every step is idempotent.

use vstd::prelude::*;

verus! {

/// Index of the first step a sequencer runs.
pub const FIRST_STEP: usize = 1;

/// Index of the last step a sequencer runs.
pub const LAST_STEP: usize = 5;

/// Progress of a sequencer run.
pub enum Sequencer {
    /// `next` is the next step to run, between 1 and 5.
    Running { next: usize },
    /// Step `step` failed with `message`; nothing further runs.
    Failed { step: usize, message: String },
    /// Every step succeeded.
    Complete,
}

/// Mathematical form of a [`Sequencer`].
pub enum SequencerModel {
    Running(int),
    Failed(int, Seq<char>),
    Complete,
}

impl View for Sequencer {
    type V = SequencerModel;

    open spec fn view(&self) -> SequencerModel {
        match self {
            Sequencer::Running { next } => SequencerModel::Running(*next as int),
            Sequencer::Failed { step, message } => SequencerModel::Failed(*step as int, message@),
            Sequencer::Complete => SequencerModel::Complete,
        }
    }
}

/// A sequencer holds a step index in range while it runs.
pub open spec fn sequencer_wf(s: Sequencer) -> bool {
    s@ matches SequencerModel::Running(k) ==> 1 <= k <= 5
}

impl Sequencer {
    /// A fresh run, about to execute step 1.
    pub fn new() -> (s: Self)
        ensures
            s@ == SequencerModel::Running(1),
            sequencer_wf(s),
    {
        Sequencer::Running { next: FIRST_STEP }
    }

    /// The step to run next, while any remains.
    pub fn next_step(&self) -> (r: Option<usize>)
        ensures
            match r {
                Some(k) => self@ == SequencerModel::Running(k as int),
                None => !(self@ is Running),
            },
    {
        match self {
            Sequencer::Running { next } => Some(*next),
            _ => None,
        }
    }

    /// Feeds the outcome of the current step back into the machine: on
    /// success the run moves to the following step, or completes after
    /// the last; on failure it halts, keeping the step index and the
    /// message. A finished machine ignores outcomes.
    pub fn record(&mut self, outcome: &Result<String, String>) -> (halted: bool)
        requires
            sequencer_wf(*old(self)),
        ensures
            sequencer_wf(*final(self)),
            match old(self)@ {
                SequencerModel::Running(k) => match outcome {
                    Ok(_) => final(self)@ == if k == 5 {
                        SequencerModel::Complete
                    } else {
                        SequencerModel::Running(k + 1)
                    },
                    Err(m) => final(self)@ == SequencerModel::Failed(k, m@),
                },
                _ => final(self)@ == old(self)@,
            },
            halted == !(final(self)@ is Running),
    {
        match self {
            Sequencer::Running { next } => {
                let k = *next;
                match outcome {
                    Ok(_) => {
                        if k == LAST_STEP {
                            *self = Sequencer::Complete;
                            true
                        } else {
                            *self = Sequencer::Running { next: k + 1 };
                            false
                        }
                    },
                    Err(m) => {
                        *self = Sequencer::Failed { step: k, message: m.clone() };
                        true
                    },
                }
            },
            Sequencer::Failed { .. } => true,
            Sequencer::Complete => true,
        }
    }
}

/// The record of one driven sequence: which steps ran, in order, and
/// where it halted.
pub struct SequenceReport {
    /// The steps that were attempted, in execution order.
    pub executed: Vec<usize>,
    /// The failing step and its message, when one failed.
    pub failure: Option<(usize, String)>,
}

/// Drives a whole unattended run against the given step outcomes, where
/// `outcomes[j]` is what the OS returned for step `j + 1`. The steps run
/// in order from 1 with no gaps; the first failure halts the run before
/// any later step and is reported with its index.
#[verifier::loop_isolation(false)]
pub fn run_sequence(outcomes: &Vec<Result<String, String>>) -> (rep: SequenceReport)
    ensures
        rep.executed@.len() <= 5,
        forall|j: int| 0 <= j < rep.executed@.len() ==> #[trigger] rep.executed@[j] == j + 1,
        match rep.failure {
            Some((s, m)) => {
                &&& rep.executed@.len() == s
                &&& 1 <= s <= 5
                &&& s <= outcomes@.len()
                &&& outcomes@[s - 1] matches Err(mm) && m@ == mm@
                &&& forall|j: int| 0 <= j < s - 1 ==> #[trigger] outcomes@[j] is Ok
            },
            None => {
                &&& rep.executed@.len() == if outcomes@.len() < 5 {
                    outcomes@.len() as int
                } else {
                    5
                }
                &&& forall|j: int|
                    0 <= j < rep.executed@.len() ==> #[trigger] outcomes@[j] is Ok
            },
        },
{
    let mut seq_state = Sequencer::new();
    let mut executed: Vec<usize> = Vec::new();
    let mut failure: Option<(usize, String)> = None;
    let mut halted = false;
    let mut i: usize = 0;
    let n = outcomes.len();
    while i < n && !halted
        invariant
            0 <= i <= n,
            !halted ==> {
                &&& i <= 4
                &&& executed@.len() == i
                &&& failure is None
                &&& seq_state@ == SequencerModel::Running(i + 1)
                &&& forall|j: int| 0 <= j < i ==> #[trigger] outcomes@[j] is Ok
            },
            halted ==> executed@.len() == i,
            executed@.len() <= 5,
            forall|j: int| 0 <= j < executed@.len() ==> #[trigger] executed@[j] == j + 1,
            halted ==> match failure {
                Some((s, m)) => {
                    &&& s == i
                    &&& 1 <= s <= 5
                    &&& s <= n
                    &&& outcomes@[s - 1] matches Err(mm) && m@ == mm@
                    &&& forall|j: int| 0 <= j < s - 1 ==> #[trigger] outcomes@[j] is Ok
                },
                None => {
                    &&& executed@.len() == 5
                    &&& forall|j: int| 0 <= j < 5 ==> #[trigger] outcomes@[j] is Ok
                },
            },
            sequencer_wf(seq_state),
        decreases n - i,
    {
        let step = match seq_state.next_step() {
            Some(s) => s,
            None => {
                proof {
                    assert(false);
                }
                0
            },
        };
        executed.push(step);
        halted = seq_state.record(&outcomes[i]);
        match &seq_state {
            Sequencer::Failed { step: failed_step, message } => {
                failure = Some((*failed_step, message.clone()));
            },
            _ => {},
        }
        i = i + 1;
    }
    SequenceReport { executed, failure }
}

} // verus!
