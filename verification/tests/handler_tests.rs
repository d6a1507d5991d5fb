use bounty_board::{
    Board, BountyBoardError, ProgError, Processor, Pubkey, SubmissionStatus, Task,
};
use ed25519_dalek::Signer;

fn key(b: u8) -> Pubkey {
    Pubkey::new([b; 32])
}

fn open_board(creator: Pubkey) -> Board {
    Board {
        is_initialized: true,
        creator,
        name: b"B".to_vec(),
        description: b"".to_vec(),
        img: b"".to_vec(),
        reward_token: key(2),
        total_pledged: 0,
        created_at: 100,
        closed: false,
        config: b"".to_vec(),
    }
}

fn open_task(creator: Pubkey) -> Task {
    Task {
        id: 0,
        name: b"t".to_vec(),
        creator,
        description: b"".to_vec(),
        deadline: 0,
        max_completions: 1,
        num_completions: 0,
        reviewers: vec![creator],
        completed: false,
        reward_amount: 100,
        created_at: 100,
        cancelled: false,
        config: b"".to_vec(),
        allow_self_check: false,
    }
}

#[test]
fn initialize_board_checks() {
    let alice = key(1);
    let err = Processor::process_initialize_board(
        &alice, false, false, true, &key(2), 5, b"n".to_vec(), b"d".to_vec(), b"i".to_vec(),
        b"c".to_vec(),
    );
    assert_eq!(err, Err(ProgError::MissingRequiredSignature));
    let err = Processor::process_initialize_board(
        &alice, true, false, false, &key(2), 5, b"n".to_vec(), b"d".to_vec(), b"i".to_vec(),
        b"c".to_vec(),
    );
    assert_eq!(err, Err(ProgError::Custom(BountyBoardError::NotRentExempt)));
    let err = Processor::process_initialize_board(
        &alice, true, true, true, &key(2), 5, b"n".to_vec(), b"d".to_vec(), b"i".to_vec(),
        b"c".to_vec(),
    );
    assert_eq!(err, Err(ProgError::Custom(BountyBoardError::BoardAlreadyInitialized)));
    let board = Processor::process_initialize_board(
        &alice, true, false, true, &key(2), 5, b"n".to_vec(), b"d".to_vec(), b"i".to_vec(),
        b"c".to_vec(),
    )
    .expect("must initialize");
    assert!(board.is_initialized);
    assert_eq!(board.creator, alice);
    assert_eq!(board.name, b"n".to_vec());
    assert_eq!(board.reward_token, key(2));
    assert_eq!(board.total_pledged, 0);
    assert_eq!(board.created_at, 5);
    assert!(!board.closed);
}

#[test]
fn create_task_checks() {
    let alice = key(1);
    let bob = key(3);
    let mut board = open_board(alice);
    let err = Processor::process_create_task(
        &bob, true, &board, 7, b"t".to_vec(), b"d".to_vec(), 0, 1, 100, b"".to_vec(), false,
    );
    assert_eq!(err, Err(ProgError::InvalidAccountData));
    board.closed = true;
    let err = Processor::process_create_task(
        &alice, true, &board, 7, b"t".to_vec(), b"d".to_vec(), 0, 1, 100, b"".to_vec(), false,
    );
    assert_eq!(err, Err(ProgError::Custom(BountyBoardError::BoardIsClosed)));
    board.closed = false;
    board.is_initialized = false;
    let err = Processor::process_create_task(
        &alice, true, &board, 7, b"t".to_vec(), b"d".to_vec(), 0, 1, 100, b"".to_vec(), false,
    );
    assert_eq!(err, Err(ProgError::Custom(BountyBoardError::BoardNotInitialized)));
    board.is_initialized = true;
    let task = Processor::process_create_task(
        &alice, true, &board, 7, b"t".to_vec(), b"d".to_vec(), -3, 2, 100, b"c".to_vec(), true,
    )
    .expect("must create");
    assert_eq!(task.reviewers, vec![alice]);
    assert_eq!(task.num_completions, 0);
    assert_eq!(task.max_completions, 2);
    assert_eq!(task.deadline, -3);
    assert!(!task.completed);
    assert!(task.allow_self_check);
    assert_eq!(task.created_at, 7);
}

#[test]
fn join_board_is_idempotent() {
    let alice = key(1);
    let bob = key(3);
    let board = open_board(alice);
    // first join: the membership record does not exist yet and is allocated
    let first = Processor::process_join_board(&bob, true, &board, true, false);
    assert_eq!(first, Ok(true));
    // second join: the record exists; the call succeeds and writes nothing
    let second = Processor::process_join_board(&bob, true, &board, true, true);
    assert_eq!(second, Ok(false));
}

#[test]
fn join_board_checks() {
    let alice = key(1);
    let bob = key(3);
    let mut board = open_board(alice);
    assert_eq!(
        Processor::process_join_board(&bob, false, &board, true, false),
        Err(ProgError::MissingRequiredSignature)
    );
    assert_eq!(
        Processor::process_join_board(&bob, true, &board, false, false),
        Err(ProgError::InvalidAccountData)
    );
    board.closed = true;
    assert_eq!(
        Processor::process_join_board(&bob, true, &board, true, false),
        Err(ProgError::Custom(BountyBoardError::BoardIsClosed))
    );
}

#[test]
fn submit_proof_deadline_passed() {
    let alice = key(1);
    let bob = key(3);
    let board = open_board(alice);
    let mut task = open_task(alice);
    task.deadline = 5;
    // host clock past a positive deadline: always the deadline error
    let r = Processor::process_submit_proof(&bob, true, &board, &task, true, true, 10, b"p".to_vec());
    assert_eq!(r, Err(ProgError::Custom(BountyBoardError::TaskDeadlinePassed)));
    // a non-positive deadline means no deadline
    task.deadline = 0;
    let r = Processor::process_submit_proof(&bob, true, &board, &task, true, true, 10, b"p".to_vec());
    assert!(r.is_ok());
    // deadline not yet reached
    task.deadline = 11;
    let r = Processor::process_submit_proof(&bob, true, &board, &task, true, true, 10, b"p".to_vec());
    assert!(r.is_ok());
}

#[test]
fn submit_proof_checks() {
    let alice = key(1);
    let bob = key(3);
    let board = open_board(alice);
    let mut task = open_task(alice);
    let r = Processor::process_submit_proof(&bob, true, &board, &task, true, false, 10, b"p".to_vec());
    assert_eq!(r, Err(ProgError::Custom(BountyBoardError::NotABoardMember)));
    task.completed = true;
    let r = Processor::process_submit_proof(&bob, true, &board, &task, true, true, 10, b"p".to_vec());
    assert_eq!(r, Err(ProgError::Custom(BountyBoardError::TaskAlreadyCompleted)));
    task.completed = false;
    task.cancelled = true;
    let r = Processor::process_submit_proof(&bob, true, &board, &task, true, true, 10, b"p".to_vec());
    assert_eq!(r, Err(ProgError::Custom(BountyBoardError::TaskIsCancelled)));
    task.cancelled = false;
    let s = Processor::process_submit_proof(&bob, true, &board, &task, true, true, 10, b"p".to_vec())
        .expect("must submit");
    assert_eq!(s.submitter, bob);
    assert_eq!(s.proof, b"p".to_vec());
    assert_eq!(s.status, SubmissionStatus::Pending);
    assert_eq!(s.submitted_at, 10);
    assert_eq!(s.review_comment, b"".to_vec());
}

#[test]
fn review_submission_paths() {
    let alice = key(1);
    let bob = key(3);
    let carol = key(4);
    let board_key = key(10);
    let board = open_board(alice);
    let task = open_task(alice);
    let submission = Processor::process_submit_proof(
        &bob, true, &board, &task, true, true, 10, b"p".to_vec(),
    )
    .expect("must submit");
    let bob_token = key(11);
    let board_token = key(12);

    // a stranger cannot review
    let r = Processor::process_review_submission(
        &carol, true, &board_key, task.clone(), submission.clone(), &bob_token, &board_token, 1,
        b"x".to_vec(),
    );
    assert!(matches!(r, Err(ProgError::Custom(BountyBoardError::NotATaskReviewer))));

    // rejection: no transfer, counters untouched
    let o = Processor::process_review_submission(
        &alice, true, &board_key, task.clone(), submission.clone(), &bob_token, &board_token, -1,
        b"no".to_vec(),
    )
    .expect("must review");
    assert_eq!(o.submission.status, SubmissionStatus::Rejected);
    assert_eq!(o.submission.review_comment, b"no".to_vec());
    assert!(o.transfer.is_none());
    assert_eq!(o.task.num_completions, 0);
    assert!(!o.task.completed);

    // any other status code leaves the submission pending
    let o = Processor::process_review_submission(
        &alice, true, &board_key, task.clone(), submission.clone(), &bob_token, &board_token, 0,
        b"hold".to_vec(),
    )
    .expect("must review");
    assert_eq!(o.submission.status, SubmissionStatus::Pending);
    assert!(o.transfer.is_none());

    // approval: reward transfer under board authority, completion counted
    let o = Processor::process_review_submission(
        &alice, true, &board_key, task.clone(), submission.clone(), &bob_token, &board_token, 1,
        b"good".to_vec(),
    )
    .expect("must review");
    assert_eq!(o.submission.status, SubmissionStatus::Approved);
    let t = o.transfer.expect("reward transfer");
    assert_eq!(t.source, board_token);
    assert_eq!(t.destination, bob_token);
    assert_eq!(t.authority, board_key);
    assert!(t.board_authority);
    assert_eq!(t.amount, 100);
    assert_eq!(o.task.num_completions, 1);
    assert!(o.task.completed);

    // an approved submission cannot be approved again
    let r = Processor::process_review_submission(
        &alice, true, &board_key, task.clone(), o.submission.clone(), &bob_token, &board_token, 1,
        b"again".to_vec(),
    );
    assert!(matches!(r, Err(ProgError::Custom(BountyBoardError::AlreadyApproved))));

    // a completed task cannot pay out again
    let r = Processor::process_review_submission(
        &alice, true, &board_key, o.task.clone(), submission.clone(), &bob_token, &board_token, 1,
        b"late".to_vec(),
    );
    assert!(matches!(r, Err(ProgError::Custom(BountyBoardError::TaskAlreadyCompleted))));
}

#[test]
fn self_check_requires_valid_signature() {
    let signing = ed25519_dalek::SigningKey::from_bytes(&[42u8; 32]);
    let creator = Pubkey::new(signing.verifying_key().to_bytes());
    let bob = key(3);
    let board_key = key(10);
    let task_key = key(13);
    let bob_token = key(11);
    let board_token = key(12);
    let mut task = open_task(creator);
    task.allow_self_check = true;

    let check_data = b"unit 5 passed".to_vec();
    let mut message = Vec::new();
    message.extend_from_slice(&board_key.bytes);
    message.extend_from_slice(&task_key.bytes);
    message.extend_from_slice(&bob.bytes);
    message.extend_from_slice(&check_data);
    let signature = signing.sign(&message).to_bytes().to_vec();

    // the right voucher is accepted and pays the reward
    let o = Processor::process_self_check_submission(
        &bob, true, &board_key, &task_key, task.clone(), true, true, &bob_token, &board_token, 20,
        signature.clone(), check_data.clone(),
    )
    .expect("self-check must pass");
    assert_eq!(o.submission.status, SubmissionStatus::Approved);
    assert_eq!(o.submission.submitter, bob);
    assert_eq!(o.submission.review_comment, check_data);
    assert_eq!(o.transfer.amount, 100);
    assert!(o.transfer.board_authority);
    assert_eq!(o.task.num_completions, 1);

    // a corrupted signature is refused
    let mut bad = signature.clone();
    bad[0] ^= 1;
    let r = Processor::process_self_check_submission(
        &bob, true, &board_key, &task_key, task.clone(), true, true, &bob_token, &board_token, 20,
        bad, check_data.clone(),
    );
    assert!(matches!(r, Err(ProgError::Custom(BountyBoardError::InvalidSignature))));

    // altered check data does not match the signed message
    let r = Processor::process_self_check_submission(
        &bob, true, &board_key, &task_key, task.clone(), true, true, &bob_token, &board_token, 20,
        signature.clone(), b"unit 6 passed".to_vec(),
    );
    assert!(matches!(r, Err(ProgError::Custom(BountyBoardError::InvalidSignature))));

    // self-check must be allowed on the task
    task.allow_self_check = false;
    let r = Processor::process_self_check_submission(
        &bob, true, &board_key, &task_key, task.clone(), true, true, &bob_token, &board_token, 20,
        signature.clone(), check_data.clone(),
    );
    assert!(matches!(r, Err(ProgError::Custom(BountyBoardError::SelfCheckNotAllowed))));
    task.allow_self_check = true;

    // and the caller must hold the membership record
    let r = Processor::process_self_check_submission(
        &bob, true, &board_key, &task_key, task.clone(), true, false, &bob_token, &board_token, 20,
        signature, check_data,
    );
    assert!(matches!(r, Err(ProgError::Custom(BountyBoardError::NotABoardMember))));
}

#[test]
fn pledge_tokens_checks() {
    let alice = key(1);
    let bob = key(3);
    let mut board = open_board(alice);
    board.total_pledged = 10;
    let alice_token = key(11);
    let board_token = key(12);
    let r = Processor::process_pledge_tokens(&bob, true, board.clone(), &alice_token, &board_token, 5);
    assert!(matches!(r, Err(ProgError::InvalidAccountData)));
    let o = Processor::process_pledge_tokens(
        &alice, true, board.clone(), &alice_token, &board_token, 5,
    )
    .expect("must pledge");
    assert_eq!(o.board.total_pledged, 15);
    assert_eq!(o.transfer.source, alice_token);
    assert_eq!(o.transfer.destination, board_token);
    assert_eq!(o.transfer.authority, alice);
    assert!(!o.transfer.board_authority);
    assert_eq!(o.transfer.amount, 5);
    board.closed = true;
    let r = Processor::process_pledge_tokens(&alice, true, board, &alice_token, &board_token, 5);
    assert!(matches!(r, Err(ProgError::Custom(BountyBoardError::BoardIsClosed))));
}

#[test]
fn close_board_checks() {
    let alice = key(1);
    let bob = key(3);
    let board_key = key(10);
    let board_token = key(12);
    let alice_token = key(11);
    let mut board = open_board(alice);
    let r = Processor::process_close_board(&bob, true, &board_key, board.clone(), &board_token, &alice_token);
    assert!(matches!(r, Err(ProgError::InvalidAccountData)));
    // nothing pledged: no transfer, board still closes
    let o = Processor::process_close_board(&alice, true, &board_key, board.clone(), &board_token, &alice_token)
        .expect("must close");
    assert!(o.board.closed);
    assert_eq!(o.board.total_pledged, 0);
    assert!(o.transfer.is_none());
    // a pledged pool is returned in full
    board.total_pledged = 500;
    let o = Processor::process_close_board(&alice, true, &board_key, board, &board_token, &alice_token)
        .expect("must close");
    let t = o.transfer.expect("refund transfer");
    assert_eq!(t.amount, 500);
    assert_eq!(t.source, board_token);
    assert_eq!(t.destination, alice_token);
    assert!(t.board_authority);
}

#[test]
fn error_codes_are_stable() {
    assert_eq!(BountyBoardError::InvalidInstruction.code(), 0);
    assert_eq!(BountyBoardError::NotRentExempt.code(), 1);
    assert_eq!(BountyBoardError::BoardIsClosed.code(), 4);
    assert_eq!(BountyBoardError::TaskDeadlinePassed.code(), 7);
    assert_eq!(BountyBoardError::NotABoardMember.code(), 8);
    assert_eq!(BountyBoardError::NoSubmissionFound.code(), 14);
}
