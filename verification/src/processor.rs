//! The instruction handlers: pure state transitions.
//!
//! Each handler takes the caller's identity and signature flag, the decoded
//! entity records the call touches, and the host-environment facts it needs
//! (the clock, rent exemption, whether the membership record stands at its
//! derived address), and returns the fresh or mutated records together with
//! the token transfer the host must perform. Nothing is written and no token
//! moves unless the handler succeeds; a failure carries exactly one error.
//!
//! The source taxonomy declares guards that its handlers never performed:
//! re-initializing a board, re-approving an approved submission, rewarding a
//! completed task, and the self-check signature. Here all four are enforced:
//! `BoardAlreadyInitialized`, `AlreadyApproved`, `TaskAlreadyCompleted` in
//! the review path, and `InvalidSignature` via a real Ed25519 check.

use vstd::prelude::*;
use crate::pubkey::Pubkey;
use crate::state::{Board, BoardView, Task, TaskView, Submission, SubmissionView, SubmissionStatus};
use crate::error::{BountyBoardError, ProgError};
use crate::verify_sig::{ed25519_valid, ed25519_verify};
use crate::codec::write_key;

verus! {

/// The mathematical value of a [`TokenTransfer`].
pub ghost struct TokenTransferView {
    pub source: Seq<u8>,
    pub destination: Seq<u8>,
    pub authority: Seq<u8>,
    pub board_authority: bool,
    pub amount: u64,
}

/// A transfer the host's token service must perform: `amount` from `source`
/// to `destination`. When `board_authority` holds, the transfer is signed by
/// the program on the board's behalf (`authority` is the board account);
/// otherwise the caller's own signature authorizes it.
#[derive(Clone, Copy, Debug, PartialEq, Eq)]
pub struct TokenTransfer {
    pub source: Pubkey,
    pub destination: Pubkey,
    pub authority: Pubkey,
    pub board_authority: bool,
    pub amount: u64,
}

impl View for TokenTransfer {
    type V = TokenTransferView;

    open spec fn view(&self) -> TokenTransferView {
        TokenTransferView {
            source: self.source@,
            destination: self.destination@,
            authority: self.authority@,
            board_authority: self.board_authority,
            amount: self.amount,
        }
    }
}

/// What a successful review produces.
pub struct ReviewOutcome {
    pub task: Task,
    pub submission: Submission,
    pub transfer: Option<TokenTransfer>,
}

/// What a successful self-check produces.
pub struct SelfCheckOutcome {
    pub task: Task,
    pub submission: Submission,
    pub transfer: TokenTransfer,
}

/// What a successful pledge produces.
pub struct PledgeOutcome {
    pub board: Board,
    pub transfer: TokenTransfer,
}

/// What a successful close produces.
pub struct CloseOutcome {
    pub board: Board,
    pub transfer: Option<TokenTransfer>,
}

/// Whether `key` is one of the identities allowed to review the task.
pub open spec fn reviewer_listed(t: TaskView, key: Seq<u8>) -> bool {
    exists|i: int| 0 <= i < t.reviewers.len() && t.reviewers[i] == key
}

/// The decision a review status code stands for: 1 approves, -1 rejects,
/// anything else leaves the submission pending.
pub open spec fn decide_status(status: i8) -> SubmissionStatus {
    if status == 1 {
        SubmissionStatus::Approved
    } else if status == -1 {
        SubmissionStatus::Rejected
    } else {
        SubmissionStatus::Pending
    }
}

/// The task record after one counted completion: the counter grows by one
/// and the task completes once the counter reaches the cap.
pub open spec fn task_after_approval(t: TaskView) -> TaskView
    recommends
        t.num_completions < u64::MAX,
{
    TaskView {
        num_completions: (t.num_completions + 1) as u64,
        completed: t.num_completions + 1 >= t.max_completions,
        ..t
    }
}

/// The board record after a successful pledge: only the pledged total grows.
pub open spec fn board_after_pledge(b: BoardView, amount: u64) -> BoardView
    recommends
        b.total_pledged + amount <= u64::MAX,
{
    BoardView { total_pledged: (b.total_pledged + amount) as u64, ..b }
}

/// The board record after a successful close: the pledged total is zeroed
/// and the board is closed.
pub open spec fn board_after_close(b: BoardView) -> BoardView {
    BoardView { total_pledged: 0u64, closed: true, ..b }
}

/// The message a self-check voucher signs: the board, task and submitter
/// identities, then the check data.
pub open spec fn self_check_message(
    board: Seq<u8>,
    task: Seq<u8>,
    submitter: Seq<u8>,
    check_data: Seq<u8>,
) -> Seq<u8> {
    board + task + submitter + check_data
}

/// The handlers. Each is a pure function from the caller-visible world to
/// the records to persist and the transfer to perform.
pub struct Processor;

impl Processor {
    /// Initializes a board: the creator must co-sign, the board account must
    /// already be rent-exempt, and the record must not already hold an
    /// initialized board.
    pub fn process_initialize_board(
        creator: &Pubkey,
        creator_is_signer: bool,
        already_initialized: bool,
        rent_exempt: bool,
        reward_token: &Pubkey,
        now: i64,
        name: Vec<u8>,
        description: Vec<u8>,
        img: Vec<u8>,
        config: Vec<u8>,
    ) -> (r: Result<Board, ProgError>)
        ensures
            r is Ok <==> creator_is_signer && rent_exempt && !already_initialized,
            !creator_is_signer ==> r == Err::<Board, ProgError>(
                ProgError::MissingRequiredSignature,
            ),
            creator_is_signer && !rent_exempt ==> r == Err::<Board, ProgError>(
                ProgError::Custom(BountyBoardError::NotRentExempt),
            ),
            creator_is_signer && rent_exempt && already_initialized ==> r == Err::<
                Board,
                ProgError,
            >(ProgError::Custom(BountyBoardError::BoardAlreadyInitialized)),
            r matches Ok(b) ==> b@ == (BoardView {
                is_initialized: true,
                creator: creator@,
                name: name@,
                description: description@,
                img: img@,
                reward_token: reward_token@,
                total_pledged: 0u64,
                created_at: now,
                closed: false,
                config: config@,
            }),
    {
        if !creator_is_signer {
            return Err(ProgError::MissingRequiredSignature);
        }
        if !rent_exempt {
            return Err(ProgError::Custom(BountyBoardError::NotRentExempt));
        }
        if already_initialized {
            return Err(ProgError::Custom(BountyBoardError::BoardAlreadyInitialized));
        }
        Ok(
            Board {
                is_initialized: true,
                creator: *creator,
                name,
                description,
                img,
                reward_token: *reward_token,
                total_pledged: 0,
                created_at: now,
                closed: false,
                config,
            },
        )
    }

    /// Creates a task under a board: the caller must sign and be the board's
    /// creator, and the board must be initialized and open. The creator is
    /// enrolled as the first identity allowed to review the task.
    pub fn process_create_task(
        creator: &Pubkey,
        creator_is_signer: bool,
        board: &Board,
        now: i64,
        name: Vec<u8>,
        description: Vec<u8>,
        deadline: i64,
        max_completions: u64,
        reward_amount: u64,
        config: Vec<u8>,
        allow_self_check: bool,
    ) -> (r: Result<Task, ProgError>)
        ensures
            r is Ok <==> creator_is_signer && board@.is_initialized && !board@.closed
                && board@.creator == creator@,
            !creator_is_signer ==> r == Err::<Task, ProgError>(ProgError::MissingRequiredSignature),
            creator_is_signer && !board@.is_initialized ==> r == Err::<Task, ProgError>(
                ProgError::Custom(BountyBoardError::BoardNotInitialized),
            ),
            creator_is_signer && board@.is_initialized && board@.closed ==> r == Err::<
                Task,
                ProgError,
            >(ProgError::Custom(BountyBoardError::BoardIsClosed)),
            creator_is_signer && board@.is_initialized && !board@.closed && board@.creator
                != creator@ ==> r == Err::<Task, ProgError>(ProgError::InvalidAccountData),
            r matches Ok(t) ==> t@ == (TaskView {
                id: 0u64,
                name: name@,
                creator: creator@,
                description: description@,
                deadline: deadline,
                max_completions: max_completions,
                num_completions: 0u64,
                reviewers: seq![creator@],
                completed: false,
                reward_amount: reward_amount,
                created_at: now,
                cancelled: false,
                config: config@,
                allow_self_check: allow_self_check,
            }),
    {
        if !creator_is_signer {
            return Err(ProgError::MissingRequiredSignature);
        }
        if !board.is_initialized {
            return Err(ProgError::Custom(BountyBoardError::BoardNotInitialized));
        }
        if board.closed {
            return Err(ProgError::Custom(BountyBoardError::BoardIsClosed));
        }
        if !board.creator.eq_key(creator) {
            return Err(ProgError::InvalidAccountData);
        }
        let mut reviewers: Vec<Pubkey> = Vec::new();
        reviewers.push(*creator);
        let t = Task {
            id: 0,
            name,
            creator: *creator,
            description,
            deadline,
            max_completions,
            num_completions: 0,
            reviewers,
            completed: false,
            reward_amount,
            created_at: now,
            cancelled: false,
            config,
            allow_self_check,
        };
        proof {
            assert(t@.reviewers =~= seq![creator@]);
        }
        Ok(t)
    }

    /// Joins a board: the caller must sign, the board must be initialized
    /// and open, and the membership record must stand at the address derived
    /// from the board and user identities. Returns whether the host must
    /// allocate the record: joining again is a silent no-op.
    pub fn process_join_board(
        user: &Pubkey,
        user_is_signer: bool,
        board: &Board,
        member_account_is_derived: bool,
        member_record_exists: bool,
    ) -> (r: Result<bool, ProgError>)
        ensures
            r is Ok <==> user_is_signer && board@.is_initialized && !board@.closed
                && member_account_is_derived,
            !user_is_signer ==> r == Err::<bool, ProgError>(ProgError::MissingRequiredSignature),
            user_is_signer && !board@.is_initialized ==> r == Err::<bool, ProgError>(
                ProgError::Custom(BountyBoardError::BoardNotInitialized),
            ),
            user_is_signer && board@.is_initialized && board@.closed ==> r == Err::<
                bool,
                ProgError,
            >(ProgError::Custom(BountyBoardError::BoardIsClosed)),
            user_is_signer && board@.is_initialized && !board@.closed
                && !member_account_is_derived ==> r == Err::<bool, ProgError>(
                ProgError::InvalidAccountData,
            ),
            r matches Ok(create) ==> create == !member_record_exists,
    {
        if !user_is_signer {
            return Err(ProgError::MissingRequiredSignature);
        }
        if !board.is_initialized {
            return Err(ProgError::Custom(BountyBoardError::BoardNotInitialized));
        }
        if board.closed {
            return Err(ProgError::Custom(BountyBoardError::BoardIsClosed));
        }
        if !member_account_is_derived {
            return Err(ProgError::InvalidAccountData);
        }
        Ok(!member_record_exists)
    }

    /// Submits proof for a task: the caller must sign, the board must be
    /// initialized and open, the caller must hold the derived membership
    /// record, and the task must be neither completed, nor cancelled, nor
    /// past a positive deadline. On success a fresh pending submission is
    /// produced; on failure nothing is written.
    pub fn process_submit_proof(
        submitter: &Pubkey,
        submitter_is_signer: bool,
        board: &Board,
        task: &Task,
        member_account_is_derived: bool,
        member_record_exists: bool,
        now: i64,
        proof: Vec<u8>,
    ) -> (r: Result<Submission, ProgError>)
        ensures
            r is Ok <==> submitter_is_signer && board@.is_initialized && !board@.closed
                && member_account_is_derived && member_record_exists && !task@.completed
                && !task@.cancelled && !(task@.deadline > 0 && task@.deadline < now),
            !submitter_is_signer ==> r == Err::<Submission, ProgError>(
                ProgError::MissingRequiredSignature,
            ),
            submitter_is_signer && !board@.is_initialized ==> r == Err::<Submission, ProgError>(
                ProgError::Custom(BountyBoardError::BoardNotInitialized),
            ),
            submitter_is_signer && board@.is_initialized && board@.closed ==> r == Err::<
                Submission,
                ProgError,
            >(ProgError::Custom(BountyBoardError::BoardIsClosed)),
            submitter_is_signer && board@.is_initialized && !board@.closed
                && !(member_account_is_derived && member_record_exists) ==> r == Err::<
                Submission,
                ProgError,
            >(ProgError::Custom(BountyBoardError::NotABoardMember)),
            submitter_is_signer && board@.is_initialized && !board@.closed
                && member_account_is_derived && member_record_exists && task@.completed ==> r
                == Err::<Submission, ProgError>(
                ProgError::Custom(BountyBoardError::TaskAlreadyCompleted),
            ),
            submitter_is_signer && board@.is_initialized && !board@.closed
                && member_account_is_derived && member_record_exists && !task@.completed
                && task@.cancelled ==> r == Err::<Submission, ProgError>(
                ProgError::Custom(BountyBoardError::TaskIsCancelled),
            ),
            submitter_is_signer && board@.is_initialized && !board@.closed
                && member_account_is_derived && member_record_exists && !task@.completed
                && !task@.cancelled && task@.deadline > 0 && task@.deadline < now ==> r == Err::<
                Submission,
                ProgError,
            >(ProgError::Custom(BountyBoardError::TaskDeadlinePassed)),
            r matches Ok(s) ==> s@ == (SubmissionView {
                submitter: submitter@,
                proof: proof@,
                status: SubmissionStatus::Pending,
                submitted_at: now,
                review_comment: Seq::<u8>::empty(),
            }),
    {
        if !submitter_is_signer {
            return Err(ProgError::MissingRequiredSignature);
        }
        if !board.is_initialized {
            return Err(ProgError::Custom(BountyBoardError::BoardNotInitialized));
        }
        if board.closed {
            return Err(ProgError::Custom(BountyBoardError::BoardIsClosed));
        }
        if !member_account_is_derived || !member_record_exists {
            return Err(ProgError::Custom(BountyBoardError::NotABoardMember));
        }
        if task.completed {
            return Err(ProgError::Custom(BountyBoardError::TaskAlreadyCompleted));
        }
        if task.cancelled {
            return Err(ProgError::Custom(BountyBoardError::TaskIsCancelled));
        }
        if task.deadline > 0 && task.deadline < now {
            return Err(ProgError::Custom(BountyBoardError::TaskDeadlinePassed));
        }
        Ok(
            Submission {
                submitter: *submitter,
                proof,
                status: SubmissionStatus::Pending,
                submitted_at: now,
                review_comment: Vec::new(),
            },
        )
    }

    /// Whether `key` is one of the identities allowed to review the task.
    fn find_reviewer(task: &Task, key: &Pubkey) -> (r: bool)
        ensures
            r == reviewer_listed(task@, key@),
    {
        let mut i: usize = 0;
        while i < task.reviewers.len()
            invariant
                i <= task.reviewers@.len(),
                forall|j: int| 0 <= j < i ==> task@.reviewers[j] != key@,
            decreases task.reviewers@.len() - i,
        {
            if task.reviewers[i].eq_key(key) {
                proof {
                    assert(task@.reviewers[i as int] == key@);
                }
                return true;
            }
            i = i + 1;
        }
        false
    }

    /// Reviews a submission: the caller must sign and be allowed to review.
    /// Status 1 approves, -1 rejects, anything else leaves the submission
    /// pending; the review comment is always replaced. Approval pays the
    /// task's reward from the board's token account under the board's own
    /// authority, counts the completion, and completes the task when the cap
    /// is reached; an already-approved submission or an already-completed
    /// task cannot be approved again.
    pub fn process_review_submission(
        reviewer: &Pubkey,
        reviewer_is_signer: bool,
        board_key: &Pubkey,
        task: Task,
        submission: Submission,
        submitter_token: &Pubkey,
        board_token: &Pubkey,
        status: i8,
        review_comment: Vec<u8>,
    ) -> (r: Result<ReviewOutcome, ProgError>)
        requires
            task@.num_completions < u64::MAX,
        ensures
            r is Ok <==> reviewer_is_signer && reviewer_listed(task@, reviewer@) && (decide_status(
                status,
            ) == SubmissionStatus::Approved ==> submission@.status != SubmissionStatus::Approved
                && !task@.completed),
            !reviewer_is_signer ==> r == Err::<ReviewOutcome, ProgError>(
                ProgError::MissingRequiredSignature,
            ),
            reviewer_is_signer && !reviewer_listed(task@, reviewer@) ==> r == Err::<
                ReviewOutcome,
                ProgError,
            >(ProgError::Custom(BountyBoardError::NotATaskReviewer)),
            reviewer_is_signer && reviewer_listed(task@, reviewer@) && decide_status(status)
                == SubmissionStatus::Approved && submission@.status == SubmissionStatus::Approved
                ==> r == Err::<ReviewOutcome, ProgError>(
                ProgError::Custom(BountyBoardError::AlreadyApproved),
            ),
            reviewer_is_signer && reviewer_listed(task@, reviewer@) && decide_status(status)
                == SubmissionStatus::Approved && submission@.status != SubmissionStatus::Approved
                && task@.completed ==> r == Err::<ReviewOutcome, ProgError>(
                ProgError::Custom(BountyBoardError::TaskAlreadyCompleted),
            ),
            r matches Ok(o) ==> o.submission@ == (SubmissionView {
                submitter: submission@.submitter,
                proof: submission@.proof,
                status: decide_status(status),
                submitted_at: submission@.submitted_at,
                review_comment: review_comment@,
            }),
            r matches Ok(o) ==> (decide_status(status) != SubmissionStatus::Approved ==> o.task@
                == task@ && o.transfer is None),
            r matches Ok(o) ==> (decide_status(status) == SubmissionStatus::Approved ==> o.task@
                == task_after_approval(task@) && (o.transfer matches Some(t) && t@
                == (TokenTransferView {
                source: board_token@,
                destination: submitter_token@,
                authority: board_key@,
                board_authority: true,
                amount: task@.reward_amount,
            }))),
    {
        if !reviewer_is_signer {
            return Err(ProgError::MissingRequiredSignature);
        }
        if !Self::find_reviewer(&task, reviewer) {
            return Err(ProgError::Custom(BountyBoardError::NotATaskReviewer));
        }
        let new_status = if status == 1 {
            SubmissionStatus::Approved
        } else if status == -1 {
            SubmissionStatus::Rejected
        } else {
            SubmissionStatus::Pending
        };
        let approving = match new_status {
            SubmissionStatus::Approved => true,
            _ => false,
        };
        if approving {
            let already = match submission.status {
                SubmissionStatus::Approved => true,
                _ => false,
            };
            if already {
                return Err(ProgError::Custom(BountyBoardError::AlreadyApproved));
            }
            if task.completed {
                return Err(ProgError::Custom(BountyBoardError::TaskAlreadyCompleted));
            }
        }
        let mut task = task;
        let mut submission = submission;
        submission.status = new_status;
        submission.review_comment = review_comment;
        if approving {
            let transfer = TokenTransfer {
                source: *board_token,
                destination: *submitter_token,
                authority: *board_key,
                board_authority: true,
                amount: task.reward_amount,
            };
            task.num_completions = task.num_completions + 1;
            if task.num_completions >= task.max_completions {
                task.completed = true;
            }
            Ok(ReviewOutcome { task, submission, transfer: Some(transfer) })
        } else {
            Ok(ReviewOutcome { task, submission, transfer: None })
        }
    }

    /// Submits and self-approves in one step: the caller must sign, the task
    /// must allow self-checks, the caller must hold the derived membership
    /// record, and the presented voucher must carry a valid Ed25519
    /// signature by the task creator over (board, task, submitter, check
    /// data). Approval pays the reward and counts the completion exactly as
    /// a review does, and a completed task cannot be rewarded again.
    pub fn process_self_check_submission(
        submitter: &Pubkey,
        submitter_is_signer: bool,
        board_key: &Pubkey,
        task_key: &Pubkey,
        task: Task,
        member_account_is_derived: bool,
        member_record_exists: bool,
        submitter_token: &Pubkey,
        board_token: &Pubkey,
        now: i64,
        signature: Vec<u8>,
        check_data: Vec<u8>,
    ) -> (r: Result<SelfCheckOutcome, ProgError>)
        requires
            task@.num_completions < u64::MAX,
        ensures
            r is Ok <==> submitter_is_signer && task@.allow_self_check && (
            member_account_is_derived && member_record_exists) && ed25519_valid(
                task@.creator,
                self_check_message(board_key@, task_key@, submitter@, check_data@),
                signature@,
            ) && !task@.completed,
            !submitter_is_signer ==> r == Err::<SelfCheckOutcome, ProgError>(
                ProgError::MissingRequiredSignature,
            ),
            submitter_is_signer && !task@.allow_self_check ==> r == Err::<
                SelfCheckOutcome,
                ProgError,
            >(ProgError::Custom(BountyBoardError::SelfCheckNotAllowed)),
            submitter_is_signer && task@.allow_self_check && !(member_account_is_derived
                && member_record_exists) ==> r == Err::<SelfCheckOutcome, ProgError>(
                ProgError::Custom(BountyBoardError::NotABoardMember),
            ),
            submitter_is_signer && task@.allow_self_check && member_account_is_derived
                && member_record_exists && !ed25519_valid(
                task@.creator,
                self_check_message(board_key@, task_key@, submitter@, check_data@),
                signature@,
            ) ==> r == Err::<SelfCheckOutcome, ProgError>(
                ProgError::Custom(BountyBoardError::InvalidSignature),
            ),
            submitter_is_signer && task@.allow_self_check && member_account_is_derived
                && member_record_exists && ed25519_valid(
                task@.creator,
                self_check_message(board_key@, task_key@, submitter@, check_data@),
                signature@,
            ) && task@.completed ==> r == Err::<SelfCheckOutcome, ProgError>(
                ProgError::Custom(BountyBoardError::TaskAlreadyCompleted),
            ),
            r matches Ok(o) ==> o.submission@ == (SubmissionView {
                submitter: submitter@,
                proof: Seq::<u8>::empty(),
                status: SubmissionStatus::Approved,
                submitted_at: now,
                review_comment: check_data@,
            }),
            r matches Ok(o) ==> o.task@ == task_after_approval(task@),
            r matches Ok(o) ==> o.transfer@ == (TokenTransferView {
                source: board_token@,
                destination: submitter_token@,
                authority: board_key@,
                board_authority: true,
                amount: task@.reward_amount,
            }),
    {
        if !submitter_is_signer {
            return Err(ProgError::MissingRequiredSignature);
        }
        if !task.allow_self_check {
            return Err(ProgError::Custom(BountyBoardError::SelfCheckNotAllowed));
        }
        if !member_account_is_derived || !member_record_exists {
            return Err(ProgError::Custom(BountyBoardError::NotABoardMember));
        }
        let mut message: Vec<u8> = Vec::new();
        write_key(&mut message, board_key);
        write_key(&mut message, task_key);
        write_key(&mut message, submitter);
        let mut i: usize = 0;
        let ghost head = message@;
        while i < check_data.len()
            invariant
                i <= check_data@.len(),
                message@ == head + check_data@.take(i as int),
            decreases check_data@.len() - i,
        {
            let b = check_data[i];
            message.push(b);
            proof {
                assert((head + check_data@.take(i as int)).push(b) =~= head + check_data@.take(
                    i as int + 1,
                ));
            }
            i = i + 1;
        }
        proof {
            assert(check_data@.take(check_data@.len() as int) =~= check_data@);
            assert(message@ =~= self_check_message(board_key@, task_key@, submitter@, check_data@));
        }
        if !ed25519_verify(&task.creator, &message, &signature) {
            return Err(ProgError::Custom(BountyBoardError::InvalidSignature));
        }
        if task.completed {
            return Err(ProgError::Custom(BountyBoardError::TaskAlreadyCompleted));
        }
        let submission = Submission {
            submitter: *submitter,
            proof: Vec::new(),
            status: SubmissionStatus::Approved,
            submitted_at: now,
            review_comment: check_data,
        };
        let transfer = TokenTransfer {
            source: *board_token,
            destination: *submitter_token,
            authority: *board_key,
            board_authority: true,
            amount: task.reward_amount,
        };
        let mut task = task;
        task.num_completions = task.num_completions + 1;
        if task.num_completions >= task.max_completions {
            task.completed = true;
        }
        Ok(SelfCheckOutcome { task, submission, transfer })
    }

    /// Pledges tokens to a board's reward pool: the caller must sign and be
    /// the board's creator, and the board must be open. The transfer draws
    /// from the pledger's own token account under the pledger's own
    /// signature, and the pledged total grows by the amount.
    pub fn process_pledge_tokens(
        pledger: &Pubkey,
        pledger_is_signer: bool,
        board: Board,
        pledger_token: &Pubkey,
        board_token: &Pubkey,
        amount: u64,
    ) -> (r: Result<PledgeOutcome, ProgError>)
        requires
            board@.total_pledged + amount <= u64::MAX,
        ensures
            r is Ok <==> pledger_is_signer && !board@.closed && board@.creator == pledger@,
            !pledger_is_signer ==> r == Err::<PledgeOutcome, ProgError>(
                ProgError::MissingRequiredSignature,
            ),
            pledger_is_signer && board@.closed ==> r == Err::<PledgeOutcome, ProgError>(
                ProgError::Custom(BountyBoardError::BoardIsClosed),
            ),
            pledger_is_signer && !board@.closed && board@.creator != pledger@ ==> r == Err::<
                PledgeOutcome,
                ProgError,
            >(ProgError::InvalidAccountData),
            r matches Ok(o) ==> o.board@ == board_after_pledge(board@, amount),
            r matches Ok(o) ==> o.transfer@ == (TokenTransferView {
                source: pledger_token@,
                destination: board_token@,
                authority: pledger@,
                board_authority: false,
                amount: amount,
            }),
    {
        if !pledger_is_signer {
            return Err(ProgError::MissingRequiredSignature);
        }
        if board.closed {
            return Err(ProgError::Custom(BountyBoardError::BoardIsClosed));
        }
        if !board.creator.eq_key(pledger) {
            return Err(ProgError::InvalidAccountData);
        }
        let transfer = TokenTransfer {
            source: *pledger_token,
            destination: *board_token,
            authority: *pledger,
            board_authority: false,
            amount,
        };
        let mut board = board;
        board.total_pledged = board.total_pledged + amount;
        Ok(PledgeOutcome { board, transfer })
    }

    /// Closes a board: the caller must sign and be the board's creator. Any
    /// pledged balance is returned to the creator's token account under the
    /// board's own authority, the pledged total is zeroed, and the board is
    /// closed for good.
    pub fn process_close_board(
        creator: &Pubkey,
        creator_is_signer: bool,
        board_key: &Pubkey,
        board: Board,
        board_token: &Pubkey,
        creator_token: &Pubkey,
    ) -> (r: Result<CloseOutcome, ProgError>)
        ensures
            r is Ok <==> creator_is_signer && board@.creator == creator@,
            !creator_is_signer ==> r == Err::<CloseOutcome, ProgError>(
                ProgError::MissingRequiredSignature,
            ),
            creator_is_signer && board@.creator != creator@ ==> r == Err::<CloseOutcome, ProgError>(
                ProgError::InvalidAccountData,
            ),
            r matches Ok(o) ==> o.board@ == board_after_close(board@),
            r matches Ok(o) ==> o.transfer == (if board@.total_pledged > 0 {
                Some(
                    TokenTransfer {
                        source: *board_token,
                        destination: *creator_token,
                        authority: *board_key,
                        board_authority: true,
                        amount: board@.total_pledged,
                    },
                )
            } else {
                None
            }),
    {
        if !creator_is_signer {
            return Err(ProgError::MissingRequiredSignature);
        }
        if !board.creator.eq_key(creator) {
            return Err(ProgError::InvalidAccountData);
        }
        let transfer = if board.total_pledged > 0 {
            Some(
                TokenTransfer {
                    source: *board_token,
                    destination: *creator_token,
                    authority: *board_key,
                    board_authority: true,
                    amount: board.total_pledged,
                },
            )
        } else {
            None
        };
        let mut board = board;
        board.total_pledged = 0;
        board.closed = true;
        Ok(CloseOutcome { board, transfer })
    }
}

} // verus!
