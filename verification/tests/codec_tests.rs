use bounty_board::{
    Board, BountyBoardInstruction, Pubkey, Submission, SubmissionStatus, Task, board_from_bytes,
    board_to_bytes, submission_from_bytes, submission_to_bytes, task_from_bytes, task_to_bytes,
};

fn key(b: u8) -> Pubkey {
    Pubkey::new([b; 32])
}

fn sample_board() -> Board {
    Board {
        is_initialized: true,
        creator: key(1),
        name: b"Research Board".to_vec(),
        description: b"tasks with rewards".to_vec(),
        img: b"https://example.org/x.png".to_vec(),
        reward_token: key(2),
        total_pledged: 12345,
        created_at: 1_700_000_000,
        closed: false,
        config: b"{}".to_vec(),
    }
}

fn sample_task() -> Task {
    Task {
        id: 7,
        name: b"write docs".to_vec(),
        creator: key(1),
        description: b"document the interface".to_vec(),
        deadline: -42,
        max_completions: 3,
        num_completions: 1,
        reviewers: vec![key(1), key(9)],
        completed: false,
        reward_amount: 250,
        created_at: 1_700_000_100,
        cancelled: false,
        config: b"".to_vec(),
        allow_self_check: true,
    }
}

#[test]
fn board_round_trip() {
    let b = sample_board();
    let bytes = board_to_bytes(&b);
    let b2 = board_from_bytes(bytes.as_slice()).expect("board must decode");
    assert_eq!(b2, b);
}

#[test]
fn task_round_trip() {
    let t = sample_task();
    let bytes = task_to_bytes(&t);
    let t2 = task_from_bytes(bytes.as_slice()).expect("task must decode");
    assert_eq!(t2, t);
}

#[test]
fn submission_round_trip_each_status() {
    for status in [SubmissionStatus::Pending, SubmissionStatus::Approved, SubmissionStatus::Rejected]
    {
        let s = Submission {
            submitter: key(4),
            proof: b"did it".to_vec(),
            status,
            submitted_at: -1,
            review_comment: b"ok".to_vec(),
        };
        let bytes = submission_to_bytes(&s);
        let s2 = submission_from_bytes(bytes.as_slice()).expect("submission must decode");
        assert_eq!(s2, s);
    }
}

#[test]
fn submission_exact_wire_bytes() {
    let s = Submission {
        submitter: key(7),
        proof: b"ab".to_vec(),
        status: SubmissionStatus::Approved,
        submitted_at: -1,
        review_comment: b"".to_vec(),
    };
    let bytes = submission_to_bytes(&s);
    let mut expected = vec![7u8; 32];
    expected.extend_from_slice(&[2, 0, 0, 0]);
    expected.extend_from_slice(b"ab");
    expected.push(1);
    expected.extend_from_slice(&[0xFF; 8]);
    expected.extend_from_slice(&[0, 0, 0, 0]);
    assert_eq!(bytes, expected);
}

#[test]
fn board_decode_rejects_truncation_and_trailing() {
    let b = sample_board();
    let bytes = board_to_bytes(&b);
    for cut in [0usize, 1, 10, bytes.len() - 1] {
        assert!(board_from_bytes(&bytes[..cut]).is_none());
    }
    let mut padded = bytes.clone();
    padded.push(0);
    assert!(board_from_bytes(padded.as_slice()).is_none());
}

#[test]
fn board_decode_rejects_bad_boolean() {
    let b = sample_board();
    let mut bytes = board_to_bytes(&b);
    bytes[0] = 2; // is_initialized must be 0 or 1
    assert!(board_from_bytes(bytes.as_slice()).is_none());
}

#[test]
fn instruction_pack_unpack_round_trip() {
    let cases = vec![
        BountyBoardInstruction::InitializeBoard {
            name: b"B".to_vec(),
            description: b"d".to_vec(),
            img: b"i".to_vec(),
            config: b"c".to_vec(),
        },
        BountyBoardInstruction::CreateTask {
            name: b"t".to_vec(),
            description: b"d".to_vec(),
            deadline: -5,
            max_completions: 2,
            reward_amount: 100,
            config: b"".to_vec(),
            allow_self_check: true,
        },
        BountyBoardInstruction::JoinBoard,
        BountyBoardInstruction::SubmitProof { proof: b"proof".to_vec() },
        BountyBoardInstruction::ReviewSubmission { status: -1, review_comment: b"no".to_vec() },
        BountyBoardInstruction::SelfCheckSubmission {
            signature: vec![9; 64],
            check_data: b"data".to_vec(),
        },
        BountyBoardInstruction::PledgeTokens { amount: 500 },
        BountyBoardInstruction::CloseBoard,
    ];
    for ins in cases {
        let bytes = ins.pack();
        let back = BountyBoardInstruction::unpack(bytes.as_slice()).expect("must unpack");
        assert_eq!(back, ins);
    }
}

#[test]
fn unpack_exact_pledge_bytes() {
    let bytes = [0u8, 6, 5, 0, 0, 0, 0, 0, 0, 0];
    let ins = BountyBoardInstruction::unpack(&bytes).expect("must unpack");
    assert_eq!(ins, BountyBoardInstruction::PledgeTokens { amount: 5 });
}

#[test]
fn unpack_rejects_empty_and_bad_tag() {
    assert_eq!(BountyBoardInstruction::unpack(&[]), Err("Invalid instruction".to_string()));
    assert_eq!(BountyBoardInstruction::unpack(&[1, 7]), Err("Invalid instruction".to_string()));
}

#[test]
fn unpack_rejects_bad_payload() {
    // unknown variant ordinal
    assert_eq!(
        BountyBoardInstruction::unpack(&[0, 9]),
        Err("Invalid instruction data".to_string())
    );
    // trailing byte after a complete command
    assert_eq!(
        BountyBoardInstruction::unpack(&[0, 7, 0]),
        Err("Invalid instruction data".to_string())
    );
    // truncated fields
    assert_eq!(
        BountyBoardInstruction::unpack(&[0, 6, 5, 0]),
        Err("Invalid instruction data".to_string())
    );
}
