//! Global properties of the state machine, proved from the same transition
//! functions the handlers' contracts are stated over.

use vstd::prelude::*;
use crate::state::{BoardView, TaskView};
use crate::processor::{task_after_approval, board_after_pledge, board_after_close};

verus! {

/// A successful board mutation: a pledge (which the handlers allow only
/// while the board is open) or a close.
pub ghost enum BoardOp {
    Pledge(u64),
    Close,
}

/// The board record after one successful mutation, as the handlers'
/// contracts state it.
pub open spec fn apply_board_op(b: BoardView, op: BoardOp) -> BoardView {
    match op {
        BoardOp::Pledge(amount) => board_after_pledge(b, amount),
        BoardOp::Close => board_after_close(b),
    }
}

/// The board record after a sequence of successful mutations.
pub open spec fn apply_board_ops(b: BoardView, ops: Seq<BoardOp>) -> BoardView
    decreases ops.len(),
{
    if ops.len() == 0 {
        b
    } else {
        apply_board_ops(apply_board_op(b, ops[0]), ops.skip(1))
    }
}

/// A board's `closed` flag never reverts: once closed, it stays closed
/// under every further sequence of successful mutations.
pub proof fn lemma_closed_never_reverts(b: BoardView, ops: Seq<BoardOp>)
    requires
        b.closed,
    ensures
        apply_board_ops(b, ops).closed,
    decreases ops.len(),
{
    if ops.len() > 0 {
        let b1 = apply_board_op(b, ops[0]);
        assert(b1.closed);
        lemma_closed_never_reverts(b1, ops.skip(1));
    }
}

/// The close operation is the only board mutation that sets `closed`: the
/// flag transitions false to true exactly at a close, and a pledge leaves
/// it as it stood.
pub proof fn lemma_only_close_closes(b: BoardView, op: BoardOp)
    ensures
        !b.closed && apply_board_op(b, op).closed ==> op is Close,
        op matches BoardOp::Pledge(amount) ==> apply_board_op(b, op).closed == b.closed,
        op is Close ==> apply_board_op(b, op).closed,
{
}

/// The counter invariant the handlers maintain: the completion count never
/// passes the cap, and an incomplete task still has room under the cap.
pub open spec fn task_counts_ok(t: TaskView) -> bool {
    &&& t.num_completions <= t.max_completions
    &&& !t.completed ==> t.num_completions < t.max_completions
}

/// A freshly created task satisfies the counter invariant whenever its cap
/// is at least one. (A cap of zero is accepted on creation, but its first
/// counted completion would already stand past the cap; the reward paths
/// below therefore start from a positive cap.)
pub proof fn lemma_fresh_task_counts_ok(t: TaskView)
    requires
        t.num_completions == 0,
        !t.completed,
        t.max_completions >= 1,
    ensures
        task_counts_ok(t),
{
}

/// One counted completion, performed only on an incomplete task as the
/// review and self-check handlers enforce, preserves the counter invariant.
pub proof fn lemma_approval_preserves_counts(t: TaskView)
    requires
        task_counts_ok(t),
        !t.completed,
    ensures
        task_counts_ok(task_after_approval(t)),
        task_after_approval(t).num_completions <= t.max_completions,
        task_after_approval(t).max_completions == t.max_completions,
{
}

/// A reward attempt as the handlers perform it: a completed task is
/// refused, an incomplete one is counted.
pub open spec fn task_after_reward_attempt(t: TaskView) -> TaskView {
    if t.completed {
        t
    } else {
        task_after_approval(t)
    }
}

/// The task record after `n` reward attempts.
pub open spec fn task_after_reward_attempts(t: TaskView, n: nat) -> TaskView
    decreases n,
{
    if n == 0 {
        t
    } else {
        task_after_reward_attempts(task_after_reward_attempt(t), (n - 1) as nat)
    }
}

/// `num_completions` never exceeds `max_completions` after any sequence of
/// successful reviews and self-checks, starting from any task that
/// satisfies the counter invariant.
pub proof fn lemma_completions_never_exceed_cap(t: TaskView, n: nat)
    requires
        task_counts_ok(t),
    ensures
        task_counts_ok(task_after_reward_attempts(t, n)),
        task_after_reward_attempts(t, n).num_completions <= t.max_completions,
    decreases n,
{
    if n > 0 {
        let t1 = task_after_reward_attempt(t);
        if !t.completed {
            lemma_approval_preserves_counts(t);
        }
        lemma_completions_never_exceed_cap(t1, (n - 1) as nat);
        assert(t1.max_completions == t.max_completions);
    }
}

} // verus!
