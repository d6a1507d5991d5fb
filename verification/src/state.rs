//! The persisted entity records: boards, tasks, submissions.
//!
//! Free-text fields (names, descriptions, proofs, configuration blobs) are
//! held as their raw UTF-8 bytes: the engine never inspects their content,
//! and the wire format stores them as length-prefixed byte strings.

use vstd::prelude::*;
use crate::pubkey::Pubkey;

verus! {

/// The mathematical value of a [`Board`] record.
pub ghost struct BoardView {
    pub is_initialized: bool,
    pub creator: Seq<u8>,
    pub name: Seq<u8>,
    pub description: Seq<u8>,
    pub img: Seq<u8>,
    pub reward_token: Seq<u8>,
    pub total_pledged: u64,
    pub created_at: i64,
    pub closed: bool,
    pub config: Seq<u8>,
}

/// One bounty organization: owns a reward-token pool and a set of tasks.
#[derive(Clone, Debug, PartialEq, Eq)]
pub struct Board {
    pub is_initialized: bool,
    pub creator: Pubkey,
    pub name: Vec<u8>,
    pub description: Vec<u8>,
    pub img: Vec<u8>,
    pub reward_token: Pubkey,
    pub total_pledged: u64,
    pub created_at: i64,
    pub closed: bool,
    pub config: Vec<u8>,
}

impl View for Board {
    type V = BoardView;

    open spec fn view(&self) -> BoardView {
        BoardView {
            is_initialized: self.is_initialized,
            creator: self.creator@,
            name: self.name@,
            description: self.description@,
            img: self.img@,
            reward_token: self.reward_token@,
            total_pledged: self.total_pledged,
            created_at: self.created_at,
            closed: self.closed,
            config: self.config@,
        }
    }
}

impl Board {
    /// Whether this board record has been written by an initialization.
    pub fn is_initialized(&self) -> (r: bool)
        ensures
            r == self@.is_initialized,
    {
        self.is_initialized
    }
}

impl Default for Board {
    /// A blank, uninitialized board record.
    fn default() -> (r: Board)
        ensures
            r@ == (BoardView {
                is_initialized: false,
                creator: Seq::new(32, |i: int| 0u8),
                name: Seq::<u8>::empty(),
                description: Seq::<u8>::empty(),
                img: Seq::<u8>::empty(),
                reward_token: Seq::new(32, |i: int| 0u8),
                total_pledged: 0u64,
                created_at: 0i64,
                closed: false,
                config: Seq::<u8>::empty(),
            }),
    {
        let r = Board {
            is_initialized: false,
            creator: Pubkey::zeroed(),
            name: Vec::new(),
            description: Vec::new(),
            img: Vec::new(),
            reward_token: Pubkey::zeroed(),
            total_pledged: 0,
            created_at: 0,
            closed: false,
            config: Vec::new(),
        };
        r
    }
}

/// The mathematical value of a [`Task`] record.
pub ghost struct TaskView {
    pub id: u64,
    pub name: Seq<u8>,
    pub creator: Seq<u8>,
    pub description: Seq<u8>,
    pub deadline: i64,
    pub max_completions: u64,
    pub num_completions: u64,
    pub reviewers: Seq<Seq<u8>>,
    pub completed: bool,
    pub reward_amount: u64,
    pub created_at: i64,
    pub cancelled: bool,
    pub config: Seq<u8>,
    pub allow_self_check: bool,
}

/// One unit of requested work under a board, with a per-completion reward,
/// a completion cap, and a deadline (`<= 0` means no deadline).
#[derive(Clone, Debug, PartialEq, Eq)]
pub struct Task {
    pub id: u64,
    pub name: Vec<u8>,
    pub creator: Pubkey,
    pub description: Vec<u8>,
    pub deadline: i64,
    pub max_completions: u64,
    pub num_completions: u64,
    pub reviewers: Vec<Pubkey>,
    pub completed: bool,
    pub reward_amount: u64,
    pub created_at: i64,
    pub cancelled: bool,
    pub config: Vec<u8>,
    pub allow_self_check: bool,
}

impl View for Task {
    type V = TaskView;

    open spec fn view(&self) -> TaskView {
        TaskView {
            id: self.id,
            name: self.name@,
            creator: self.creator@,
            description: self.description@,
            deadline: self.deadline,
            max_completions: self.max_completions,
            num_completions: self.num_completions,
            reviewers: self.reviewers@.map_values(|k: Pubkey| k@),
            completed: self.completed,
            reward_amount: self.reward_amount,
            created_at: self.created_at,
            cancelled: self.cancelled,
            config: self.config@,
            allow_self_check: self.allow_self_check,
        }
    }
}

impl Default for Task {
    /// A blank task record: no completions yet, a cap of one, nobody
    /// enrolled to review.
    fn default() -> (r: Task)
        ensures
            r@ == (TaskView {
                id: 0u64,
                name: Seq::<u8>::empty(),
                creator: Seq::new(32, |i: int| 0u8),
                description: Seq::<u8>::empty(),
                deadline: 0i64,
                max_completions: 1u64,
                num_completions: 0u64,
                reviewers: Seq::<Seq<u8>>::empty(),
                completed: false,
                reward_amount: 0u64,
                created_at: 0i64,
                cancelled: false,
                config: Seq::<u8>::empty(),
                allow_self_check: false,
            }),
    {
        let r = Task {
            id: 0,
            name: Vec::new(),
            creator: Pubkey::zeroed(),
            description: Vec::new(),
            deadline: 0,
            max_completions: 1,
            num_completions: 0,
            reviewers: Vec::new(),
            completed: false,
            reward_amount: 0,
            created_at: 0,
            cancelled: false,
            config: Vec::new(),
            allow_self_check: false,
        };
        proof {
            assert(r@.reviewers =~= Seq::<Seq<u8>>::empty());
        }
        r
    }
}

/// The review state of a submission.
#[derive(Clone, Copy, Debug, PartialEq, Eq, Structural)]
pub enum SubmissionStatus {
    Pending,
    Approved,
    Rejected,
}

/// The mathematical value of a [`Submission`] record.
pub ghost struct SubmissionView {
    pub submitter: Seq<u8>,
    pub proof: Seq<u8>,
    pub status: SubmissionStatus,
    pub submitted_at: i64,
    pub review_comment: Seq<u8>,
}

/// One claim of task completion, awaiting or having received a decision.
#[derive(Clone, Debug, PartialEq, Eq)]
pub struct Submission {
    pub submitter: Pubkey,
    pub proof: Vec<u8>,
    pub status: SubmissionStatus,
    pub submitted_at: i64,
    pub review_comment: Vec<u8>,
}

impl View for Submission {
    type V = SubmissionView;

    open spec fn view(&self) -> SubmissionView {
        SubmissionView {
            submitter: self.submitter@,
            proof: self.proof@,
            status: self.status,
            submitted_at: self.submitted_at,
            review_comment: self.review_comment@,
        }
    }
}

impl Default for Submission {
    /// A blank, pending submission record.
    fn default() -> (r: Submission)
        ensures
            r@ == (SubmissionView {
                submitter: Seq::new(32, |i: int| 0u8),
                proof: Seq::<u8>::empty(),
                status: SubmissionStatus::Pending,
                submitted_at: 0i64,
                review_comment: Seq::<u8>::empty(),
            }),
    {
        let r = Submission {
            submitter: Pubkey::zeroed(),
            proof: Vec::new(),
            status: SubmissionStatus::Pending,
            submitted_at: 0,
            review_comment: Vec::new(),
        };
        r
    }
}

} // verus!
