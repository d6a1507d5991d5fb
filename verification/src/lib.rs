//! A verified bounty-board instruction engine.
//!
//! Organizations post tasks with token rewards on a board; users join the
//! board, submit proof of completion, and a review (or a signed self-check)
//! approves or rejects submissions, releasing escrowed tokens. This crate holds
//! the pure core: decoding byte-encoded instructions, validating caller
//! authority and entity state, computing the mutated entity records, and
//! emitting the token-transfer effects that the host ledger must perform.

use vstd::prelude::*;

mod codec;
mod error;
mod escrow;
mod instruction;
mod laws;
mod processor;
mod pubkey;
mod state;
mod verify_sig;

pub use codec::{Reader, board_to_bytes, board_from_bytes, task_to_bytes, task_from_bytes, submission_to_bytes, submission_from_bytes, board_wf, task_wf, submission_wf, enc_board, enc_task, enc_submission, parse_board, parse_task, parse_submission, lemma_board_round_trip, lemma_task_round_trip, lemma_submission_round_trip};
pub use error::{BountyBoardError, ProgError};
pub use escrow::apply_transfer;
pub use instruction::{BountyBoardInstruction, InstructionView, instruction_wf, enc_instruction, parse_instruction, payload_decodes, decoded_payload, lemma_parse_enc_instruction};
pub use laws::{BoardOp, apply_board_op, apply_board_ops, lemma_closed_never_reverts, lemma_only_close_closes, task_counts_ok, lemma_fresh_task_counts_ok, lemma_approval_preserves_counts, task_after_reward_attempt, task_after_reward_attempts, lemma_completions_never_exceed_cap};
pub use processor::{Processor, TokenTransfer, TokenTransferView, ReviewOutcome, SelfCheckOutcome, PledgeOutcome, CloseOutcome, reviewer_listed, decide_status, self_check_message, task_after_approval, board_after_pledge, board_after_close};
pub use pubkey::Pubkey;
pub use verify_sig::{ed25519_valid, ed25519_verify};
pub use state::{Board, BoardView, Task, TaskView, Submission, SubmissionView, SubmissionStatus};
