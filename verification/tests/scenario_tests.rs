//! End-to-end flows over the pure handlers, with token balances tracked
//! through the escrow arithmetic.

use bounty_board::{
    Board, BountyBoardError, ProgError, Processor, Pubkey, SubmissionStatus, Task, apply_transfer,
};

fn key(b: u8) -> Pubkey {
    Pubkey::new([b; 32])
}

struct World {
    alice: Pubkey,
    bob: Pubkey,
    board_key: Pubkey,
    task_key: Pubkey,
    alice_token: Pubkey,
    bob_token: Pubkey,
    board_token: Pubkey,
    board: Board,
    task: Task,
}

/// Initialize board B (creator Alice), create a task (cap 1, reward 100),
/// and have Bob join.
fn setup(now: i64) -> World {
    let alice = key(1);
    let bob = key(3);
    let board = Processor::process_initialize_board(
        &alice,
        true,
        false,
        true,
        &key(2),
        now,
        b"B".to_vec(),
        b"board".to_vec(),
        b"".to_vec(),
        b"".to_vec(),
    )
    .expect("board initializes");
    let task = Processor::process_create_task(
        &alice,
        true,
        &board,
        now,
        b"task".to_vec(),
        b"do the work".to_vec(),
        0,
        1,
        100,
        b"".to_vec(),
        false,
    )
    .expect("task is created");
    // Alice is enrolled automatically as allowed to review the task
    assert_eq!(task.reviewers, vec![alice]);
    // Bob joins: his membership record is allocated
    let create = Processor::process_join_board(&bob, true, &board, true, false).expect("join");
    assert!(create);
    World {
        alice,
        bob,
        board_key: key(10),
        task_key: key(13),
        alice_token: key(11),
        bob_token: key(12),
        board_token: key(14),
        board,
        task,
    }
}

#[test]
fn scenario_approved_review_pays_reward() {
    let w = setup(100);
    let submission = Processor::process_submit_proof(
        &w.bob, true, &w.board, &w.task, true, true, 110, b"done".to_vec(),
    )
    .expect("proof submitted");
    let o = Processor::process_review_submission(
        &w.alice,
        true,
        &w.board_key,
        w.task.clone(),
        submission,
        &w.bob_token,
        &w.board_token,
        1,
        b"good".to_vec(),
    )
    .expect("review succeeds");
    // Bob's balance grows by exactly the reward
    let board_balance: u64 = 1000;
    let bob_balance: u64 = 7;
    let t = o.transfer.expect("reward transfer");
    let (board_after, bob_after) = apply_transfer(&t, board_balance, bob_balance).expect("funds");
    assert_eq!(bob_after, 107);
    assert_eq!(board_after, 900);
    assert!(o.task.completed);
    assert_eq!(o.task.num_completions, 1);
    assert_eq!(o.submission.status, SubmissionStatus::Approved);
}

#[test]
fn scenario_rejected_review_moves_nothing() {
    let w = setup(100);
    let submission = Processor::process_submit_proof(
        &w.bob, true, &w.board, &w.task, true, true, 110, b"done".to_vec(),
    )
    .expect("proof submitted");
    let o = Processor::process_review_submission(
        &w.alice,
        true,
        &w.board_key,
        w.task.clone(),
        submission,
        &w.bob_token,
        &w.board_token,
        -1,
        b"not good".to_vec(),
    )
    .expect("review succeeds");
    assert_eq!(o.submission.status, SubmissionStatus::Rejected);
    assert!(o.transfer.is_none());
    assert_eq!(o.task.num_completions, w.task.num_completions);
    assert!(!o.task.completed);
}

#[test]
fn scenario_submit_without_membership_fails() {
    let w = setup(100);
    let carol = key(9);
    // Carol never joined: no membership record exists for her
    let r = Processor::process_submit_proof(
        &carol, true, &w.board, &w.task, true, false, 110, b"mine".to_vec(),
    );
    assert_eq!(r, Err(ProgError::Custom(BountyBoardError::NotABoardMember)));
}

#[test]
fn scenario_close_board_returns_pledged_pool() {
    let w = setup(100);
    // Alice pledges 500 into the board's pool
    let mut alice_balance: u64 = 800;
    let mut board_balance: u64 = 0;
    let pledged = Processor::process_pledge_tokens(
        &w.alice, true, w.board.clone(), &w.alice_token, &w.board_token, 500,
    )
    .expect("pledge succeeds");
    let (a, b) = apply_transfer(&pledged.transfer, alice_balance, board_balance).expect("funds");
    alice_balance = a;
    board_balance = b;
    assert_eq!(pledged.board.total_pledged, 500);
    assert_eq!(alice_balance, 300);
    assert_eq!(board_balance, 500);
    // Closing returns the full pool to the creator's token account
    let closed = Processor::process_close_board(
        &w.alice, true, &w.board_key, pledged.board, &w.board_token, &w.alice_token,
    )
    .expect("close succeeds");
    let t = closed.transfer.expect("refund transfer");
    let (b2, a2) = apply_transfer(&t, board_balance, alice_balance).expect("funds");
    assert_eq!(a2, 800);
    assert_eq!(a2 - alice_balance, 500);
    assert_eq!(b2, 0);
    assert_eq!(closed.board.total_pledged, 0);
    assert!(closed.board.closed);
}

#[test]
fn transfer_fails_on_insufficient_funds() {
    let w = setup(100);
    let pledged = Processor::process_pledge_tokens(
        &w.alice, true, w.board.clone(), &w.alice_token, &w.board_token, 500,
    )
    .expect("pledge succeeds");
    // the pledger's token balance cannot cover the amount
    let r = apply_transfer(&pledged.transfer, 499, 0);
    assert_eq!(r, Err(ProgError::Custom(BountyBoardError::InsufficientFunds)));
}
