//! The wire format shared by persisted records and instruction payloads.
//!
//! Numbers are little-endian and fixed-width; booleans are one byte (0 or 1);
//! identities are 32 raw bytes; byte strings and sequences carry a 4-byte
//! little-endian length prefix; enums are a one-byte ordinal.
//!
//! Every encoder has a spec twin over views, every decoder is proved to
//! agree with a spec parser, and parsing an encoding is proved to give back
//! the encoded value exactly.

use vstd::prelude::*;
use vstd::bytes::*;
use vstd::slice::*;
use crate::pubkey::Pubkey;
use crate::state::{Board, BoardView, Task, TaskView, Submission, SubmissionView, SubmissionStatus};

verus! {

// ---------------------------------------------------------------------------
// Spec encoders
// ---------------------------------------------------------------------------

/// A `u32` on the wire: 4 bytes, little-endian.
pub open spec fn enc_u32(x: u32) -> Seq<u8> {
    spec_u32_to_le_bytes(x)
}

/// A `u64` on the wire: 8 bytes, little-endian.
pub open spec fn enc_u64(x: u64) -> Seq<u8> {
    spec_u64_to_le_bytes(x)
}

/// The unsigned 64-bit value with the same two's-complement bits as `x`.
pub open spec fn i64_as_u64(x: i64) -> u64 {
    if x >= 0 {
        x as u64
    } else {
        ((x as int) + 0x1_0000_0000_0000_0000) as u64
    }
}

/// The signed 64-bit value with the same two's-complement bits as `x`.
pub open spec fn u64_as_i64(x: u64) -> i64 {
    if x < 0x8000_0000_0000_0000 {
        x as i64
    } else {
        ((x as int) - 0x1_0000_0000_0000_0000) as i64
    }
}

/// An `i64` on the wire: 8 bytes, little-endian, two's complement.
pub open spec fn enc_i64(x: i64) -> Seq<u8> {
    enc_u64(i64_as_u64(x))
}

/// The unsigned byte with the same two's-complement bits as `x`.
pub open spec fn i8_as_u8(x: i8) -> u8 {
    if x >= 0 {
        x as u8
    } else {
        ((x as int) + 0x100) as u8
    }
}

/// The signed byte with the same two's-complement bits as `x`.
pub open spec fn u8_as_i8(x: u8) -> i8 {
    if x < 0x80 {
        x as i8
    } else {
        ((x as int) - 0x100) as i8
    }
}

/// An `i8` on the wire: one byte, two's complement.
pub open spec fn enc_i8(x: i8) -> Seq<u8> {
    seq![i8_as_u8(x)]
}

/// A `bool` on the wire: one byte, 0 or 1.
pub open spec fn enc_bool(b: bool) -> Seq<u8> {
    seq![if b { 1u8 } else { 0u8 }]
}

/// A byte string on the wire: a 4-byte length prefix, then the raw bytes.
pub open spec fn enc_bytes(s: Seq<u8>) -> Seq<u8>
    recommends
        s.len() <= u32::MAX,
{
    enc_u32(s.len() as u32) + s
}

/// The concatenation of a sequence of identities.
pub open spec fn flat_keys(ks: Seq<Seq<u8>>) -> Seq<u8>
    decreases ks.len(),
{
    if ks.len() == 0 {
        Seq::empty()
    } else {
        ks[0] + flat_keys(ks.skip(1))
    }
}

/// A sequence of identities on the wire: a 4-byte length prefix, then each
/// identity's 32 raw bytes.
pub open spec fn enc_key_seq(ks: Seq<Seq<u8>>) -> Seq<u8>
    recommends
        ks.len() <= u32::MAX,
{
    enc_u32(ks.len() as u32) + flat_keys(ks)
}

// ---------------------------------------------------------------------------
// Spec parsers: each consumes from the front and returns the value and the
// remaining bytes, or nothing when the input is malformed.
// ---------------------------------------------------------------------------

pub open spec fn parse_u32(s: Seq<u8>) -> Option<(u32, Seq<u8>)> {
    if s.len() >= 4 {
        Some((spec_u32_from_le_bytes(s.take(4)), s.skip(4)))
    } else {
        None
    }
}

pub open spec fn parse_u64(s: Seq<u8>) -> Option<(u64, Seq<u8>)> {
    if s.len() >= 8 {
        Some((spec_u64_from_le_bytes(s.take(8)), s.skip(8)))
    } else {
        None
    }
}

pub open spec fn parse_i64(s: Seq<u8>) -> Option<(i64, Seq<u8>)> {
    match parse_u64(s) {
        Some((x, rest)) => Some((u64_as_i64(x), rest)),
        None => None,
    }
}

pub open spec fn parse_i8(s: Seq<u8>) -> Option<(i8, Seq<u8>)> {
    if s.len() >= 1 {
        Some((u8_as_i8(s[0]), s.skip(1)))
    } else {
        None
    }
}

/// A boolean must be exactly 0 or 1; any other byte is malformed.
pub open spec fn parse_bool(s: Seq<u8>) -> Option<(bool, Seq<u8>)> {
    if s.len() >= 1 && (s[0] == 0u8 || s[0] == 1u8) {
        Some((s[0] == 1u8, s.skip(1)))
    } else {
        None
    }
}

pub open spec fn parse_bytes(s: Seq<u8>) -> Option<(Seq<u8>, Seq<u8>)> {
    match parse_u32(s) {
        Some((n, rest)) => if rest.len() >= n {
            Some((rest.take(n as int), rest.skip(n as int)))
        } else {
            None
        },
        None => None,
    }
}

pub open spec fn parse_key(s: Seq<u8>) -> Option<(Seq<u8>, Seq<u8>)> {
    if s.len() >= 32 {
        Some((s.take(32), s.skip(32)))
    } else {
        None
    }
}

pub open spec fn parse_keys(n: nat, s: Seq<u8>) -> Option<(Seq<Seq<u8>>, Seq<u8>)>
    decreases n,
{
    if n == 0 {
        Some((Seq::empty(), s))
    } else {
        match parse_key(s) {
            Some((k, rest)) => match parse_keys((n - 1) as nat, rest) {
                Some((ks, rest2)) => Some((seq![k] + ks, rest2)),
                None => None,
            },
            None => None,
        }
    }
}

pub open spec fn parse_key_seq(s: Seq<u8>) -> Option<(Seq<Seq<u8>>, Seq<u8>)> {
    match parse_u32(s) {
        Some((n, rest)) => parse_keys(n as nat, rest),
        None => None,
    }
}

// ---------------------------------------------------------------------------
// Round-trip lemmas: parsing an encoding, followed by anything, yields the
// encoded value and leaves exactly the rest.
// ---------------------------------------------------------------------------

pub proof fn lemma_parse_enc_u32(x: u32, rest: Seq<u8>)
    ensures
        parse_u32(enc_u32(x) + rest) == Some((x, rest)),
{
    lemma_auto_spec_u32_to_from_le_bytes();
    let s = enc_u32(x) + rest;
    assert(s.take(4) =~= enc_u32(x));
    assert(s.skip(4) =~= rest);
}

pub proof fn lemma_parse_enc_u64(x: u64, rest: Seq<u8>)
    ensures
        parse_u64(enc_u64(x) + rest) == Some((x, rest)),
{
    lemma_auto_spec_u64_to_from_le_bytes();
    let s = enc_u64(x) + rest;
    assert(s.take(8) =~= enc_u64(x));
    assert(s.skip(8) =~= rest);
}

pub proof fn lemma_parse_enc_i64(x: i64, rest: Seq<u8>)
    ensures
        parse_i64(enc_i64(x) + rest) == Some((x, rest)),
{
    lemma_parse_enc_u64(i64_as_u64(x), rest);
    assert(u64_as_i64(i64_as_u64(x)) == x);
}

pub proof fn lemma_parse_enc_i8(x: i8, rest: Seq<u8>)
    ensures
        parse_i8(enc_i8(x) + rest) == Some((x, rest)),
{
    let s = enc_i8(x) + rest;
    assert(s[0] == i8_as_u8(x));
    assert(s.skip(1) =~= rest);
    assert(u8_as_i8(i8_as_u8(x)) == x);
}

pub proof fn lemma_parse_enc_bool(b: bool, rest: Seq<u8>)
    ensures
        parse_bool(enc_bool(b) + rest) == Some((b, rest)),
{
    let s = enc_bool(b) + rest;
    assert(s[0] == if b { 1u8 } else { 0u8 });
    assert(s.skip(1) =~= rest);
}

pub proof fn lemma_parse_enc_bytes(v: Seq<u8>, rest: Seq<u8>)
    requires
        v.len() <= u32::MAX,
    ensures
        parse_bytes(enc_bytes(v) + rest) == Some((v, rest)),
{
    let n = v.len() as u32;
    assert(enc_bytes(v) + rest =~= enc_u32(n) + (v + rest));
    lemma_parse_enc_u32(n, v + rest);
    assert((v + rest).take(n as int) =~= v);
    assert((v + rest).skip(n as int) =~= rest);
}

pub proof fn lemma_parse_enc_key(k: Seq<u8>, rest: Seq<u8>)
    requires
        k.len() == 32,
    ensures
        parse_key(k + rest) == Some((k, rest)),
{
    assert((k + rest).take(32) =~= k);
    assert((k + rest).skip(32) =~= rest);
}

pub proof fn lemma_parse_flat_keys(ks: Seq<Seq<u8>>, rest: Seq<u8>)
    requires
        forall|i: int| 0 <= i < ks.len() ==> (#[trigger] ks[i]).len() == 32,
    ensures
        parse_keys(ks.len(), flat_keys(ks) + rest) == Some((ks, rest)),
    decreases ks.len(),
{
    if ks.len() == 0 {
        assert(flat_keys(ks) + rest =~= rest);
        assert(parse_keys(0, rest) == Some((Seq::<Seq<u8>>::empty(), rest)));
        assert(ks =~= Seq::<Seq<u8>>::empty());
    } else {
        let k = ks[0];
        let tail = ks.skip(1);
        assert(flat_keys(ks) + rest =~= k + (flat_keys(tail) + rest));
        lemma_parse_enc_key(k, flat_keys(tail) + rest);
        lemma_parse_flat_keys(tail, rest);
        assert(seq![k] + tail =~= ks);
    }
}

pub proof fn lemma_parse_enc_key_seq(ks: Seq<Seq<u8>>, rest: Seq<u8>)
    requires
        ks.len() <= u32::MAX,
        forall|i: int| 0 <= i < ks.len() ==> (#[trigger] ks[i]).len() == 32,
    ensures
        parse_key_seq(enc_key_seq(ks) + rest) == Some((ks, rest)),
{
    let n = ks.len() as u32;
    assert(enc_key_seq(ks) + rest =~= enc_u32(n) + (flat_keys(ks) + rest));
    lemma_parse_enc_u32(n, flat_keys(ks) + rest);
    lemma_parse_flat_keys(ks, rest);
}


// ---------------------------------------------------------------------------
// Record encodings
// ---------------------------------------------------------------------------

/// A submission status on the wire: one ordinal byte.
pub open spec fn enc_status(st: SubmissionStatus) -> Seq<u8> {
    match st {
        SubmissionStatus::Pending => seq![0u8],
        SubmissionStatus::Approved => seq![1u8],
        SubmissionStatus::Rejected => seq![2u8],
    }
}

pub open spec fn parse_status(s: Seq<u8>) -> Option<(SubmissionStatus, Seq<u8>)> {
    if s.len() >= 1 && s[0] == 0u8 {
        Some((SubmissionStatus::Pending, s.skip(1)))
    } else if s.len() >= 1 && s[0] == 1u8 {
        Some((SubmissionStatus::Approved, s.skip(1)))
    } else if s.len() >= 1 && s[0] == 2u8 {
        Some((SubmissionStatus::Rejected, s.skip(1)))
    } else {
        None
    }
}

pub proof fn lemma_parse_enc_status(st: SubmissionStatus, rest: Seq<u8>)
    ensures
        parse_status(enc_status(st) + rest) == Some((st, rest)),
{
    let s = enc_status(st) + rest;
    assert(s.skip(1) =~= rest);
}

/// Whether a board view fits the wire format: identities are 32 bytes and
/// every variable-length field fits its 4-byte length prefix.
pub open spec fn board_wf(b: BoardView) -> bool {
    &&& b.creator.len() == 32
    &&& b.reward_token.len() == 32
    &&& b.name.len() <= u32::MAX
    &&& b.description.len() <= u32::MAX
    &&& b.img.len() <= u32::MAX
    &&& b.config.len() <= u32::MAX
}

/// A board record on the wire, fields in declaration order.
pub open spec fn enc_board(b: BoardView) -> Seq<u8>
    recommends
        board_wf(b),
{
    enc_bool(b.is_initialized) + b.creator + enc_bytes(b.name) + enc_bytes(b.description)
        + enc_bytes(b.img) + b.reward_token + enc_u64(b.total_pledged) + enc_i64(b.created_at)
        + enc_bool(b.closed) + enc_bytes(b.config)
}

pub open spec fn parse_board(s: Seq<u8>) -> Option<(BoardView, Seq<u8>)> {
    match parse_bool(s) {
        Some((is_initialized, s)) => match parse_key(s) {
            Some((creator, s)) => match parse_bytes(s) {
                Some((name, s)) => match parse_bytes(s) {
                    Some((description, s)) => match parse_bytes(s) {
                        Some((img, s)) => match parse_key(s) {
                            Some((reward_token, s)) => match parse_u64(s) {
                                Some((total_pledged, s)) => match parse_i64(s) {
                                    Some((created_at, s)) => match parse_bool(s) {
                                        Some((closed, s)) => match parse_bytes(s) {
                                            Some((config, s)) => Some((
                                                BoardView {
                                                    is_initialized,
                                                    creator,
                                                    name,
                                                    description,
                                                    img,
                                                    reward_token,
                                                    total_pledged,
                                                    created_at,
                                                    closed,
                                                    config,
                                                },
                                                s,
                                            )),
                                            None => None,
                                        },
                                        None => None,
                                    },
                                    None => None,
                                },
                                None => None,
                            },
                            None => None,
                        },
                        None => None,
                    },
                    None => None,
                },
                None => None,
            },
            None => None,
        },
        None => None,
    }
}

proof fn lemma_concat_assoc(a: Seq<u8>, b: Seq<u8>, c: Seq<u8>)
    ensures
        (a + b) + c =~= a + (b + c),
{
}

pub proof fn lemma_parse_enc_board(b: BoardView, rest: Seq<u8>)
    requires
        board_wf(b),
    ensures
        parse_board(enc_board(b) + rest) == Some((b, rest)),
{
    let e1 = enc_bool(b.is_initialized);
    let e2 = b.creator;
    let e3 = enc_bytes(b.name);
    let e4 = enc_bytes(b.description);
    let e5 = enc_bytes(b.img);
    let e6 = b.reward_token;
    let e7 = enc_u64(b.total_pledged);
    let e8 = enc_i64(b.created_at);
    let e9 = enc_bool(b.closed);
    let e10 = enc_bytes(b.config);
    let r10 = e10 + rest;
    let r9 = e9 + r10;
    let r8 = e8 + r9;
    let r7 = e7 + r8;
    let r6 = e6 + r7;
    let r5 = e5 + r6;
    let r4 = e4 + r5;
    let r3 = e3 + r4;
    let r2 = e2 + r3;
    let p2 = e1 + e2;
    let p3 = p2 + e3;
    let p4 = p3 + e4;
    let p5 = p4 + e5;
    let p6 = p5 + e6;
    let p7 = p6 + e7;
    let p8 = p7 + e8;
    let p9 = p8 + e9;
    lemma_concat_assoc(p9, e10, rest);
    lemma_concat_assoc(p8, e9, r10);
    lemma_concat_assoc(p7, e8, r9);
    lemma_concat_assoc(p6, e7, r8);
    lemma_concat_assoc(p5, e6, r7);
    lemma_concat_assoc(p4, e5, r6);
    lemma_concat_assoc(p3, e4, r5);
    lemma_concat_assoc(p2, e3, r4);
    lemma_concat_assoc(e1, e2, r3);
    assert(enc_board(b) + rest == e1 + r2);
    lemma_parse_enc_bool(b.is_initialized, r2);
    lemma_parse_enc_key(b.creator, r3);
    lemma_parse_enc_bytes(b.name, r4);
    lemma_parse_enc_bytes(b.description, r5);
    lemma_parse_enc_bytes(b.img, r6);
    lemma_parse_enc_key(b.reward_token, r7);
    lemma_parse_enc_u64(b.total_pledged, r8);
    lemma_parse_enc_i64(b.created_at, r9);
    lemma_parse_enc_bool(b.closed, r10);
    lemma_parse_enc_bytes(b.config, rest);
}


/// Whether a task view fits the wire format.
pub open spec fn task_wf(t: TaskView) -> bool {
    &&& t.creator.len() == 32
    &&& t.name.len() <= u32::MAX
    &&& t.description.len() <= u32::MAX
    &&& t.config.len() <= u32::MAX
    &&& t.reviewers.len() <= u32::MAX
    &&& forall|i: int| 0 <= i < t.reviewers.len() ==> (#[trigger] t.reviewers[i]).len() == 32
}

/// A task record on the wire, fields in declaration order.
pub open spec fn enc_task(t: TaskView) -> Seq<u8>
    recommends
        task_wf(t),
{
    enc_u64(t.id) + enc_bytes(t.name) + t.creator + enc_bytes(t.description)
        + enc_i64(t.deadline) + enc_u64(t.max_completions) + enc_u64(t.num_completions)
        + enc_key_seq(t.reviewers) + enc_bool(t.completed) + enc_u64(t.reward_amount)
        + enc_i64(t.created_at) + enc_bool(t.cancelled) + enc_bytes(t.config)
        + enc_bool(t.allow_self_check)
}

pub open spec fn parse_task(s: Seq<u8>) -> Option<(TaskView, Seq<u8>)> {
    match parse_u64(s) {
        Some((id, s)) => match parse_bytes(s) {
            Some((name, s)) => match parse_key(s) {
                Some((creator, s)) => match parse_bytes(s) {
                    Some((description, s)) => match parse_i64(s) {
                        Some((deadline, s)) => match parse_u64(s) {
                            Some((max_completions, s)) => match parse_u64(s) {
                                Some((num_completions, s)) => match parse_key_seq(s) {
                                    Some((reviewers, s)) => match parse_bool(s) {
                                        Some((completed, s)) => match parse_u64(s) {
                                            Some((reward_amount, s)) => match parse_i64(s) {
                                                Some((created_at, s)) => match parse_bool(s) {
                                                    Some((cancelled, s)) => match parse_bytes(s) {
                                                        Some((config, s)) => match parse_bool(s) {
                                                            Some((allow_self_check, s)) => Some((
                                                                TaskView {
                                                                    id,
                                                                    name,
                                                                    creator,
                                                                    description,
                                                                    deadline,
                                                                    max_completions,
                                                                    num_completions,
                                                                    reviewers,
                                                                    completed,
                                                                    reward_amount,
                                                                    created_at,
                                                                    cancelled,
                                                                    config,
                                                                    allow_self_check,
                                                                },
                                                                s,
                                                            )),
                                                            None => None,
                                                        },
                                                        None => None,
                                                    },
                                                    None => None,
                                                },
                                                None => None,
                                            },
                                            None => None,
                                        },
                                        None => None,
                                    },
                                    None => None,
                                },
                                None => None,
                            },
                            None => None,
                        },
                        None => None,
                    },
                    None => None,
                },
                None => None,
            },
            None => None,
        },
        None => None,
    }
}

pub proof fn lemma_parse_enc_task(t: TaskView, rest: Seq<u8>)
    requires
        task_wf(t),
    ensures
        parse_task(enc_task(t) + rest) == Some((t, rest)),
{
    let e1 = enc_u64(t.id);
    let e2 = enc_bytes(t.name);
    let e3 = t.creator;
    let e4 = enc_bytes(t.description);
    let e5 = enc_i64(t.deadline);
    let e6 = enc_u64(t.max_completions);
    let e7 = enc_u64(t.num_completions);
    let e8 = enc_key_seq(t.reviewers);
    let e9 = enc_bool(t.completed);
    let e10 = enc_u64(t.reward_amount);
    let e11 = enc_i64(t.created_at);
    let e12 = enc_bool(t.cancelled);
    let e13 = enc_bytes(t.config);
    let e14 = enc_bool(t.allow_self_check);
    let r14 = e14 + rest;
    let r13 = e13 + r14;
    let r12 = e12 + r13;
    let r11 = e11 + r12;
    let r10 = e10 + r11;
    let r9 = e9 + r10;
    let r8 = e8 + r9;
    let r7 = e7 + r8;
    let r6 = e6 + r7;
    let r5 = e5 + r6;
    let r4 = e4 + r5;
    let r3 = e3 + r4;
    let r2 = e2 + r3;
    let p2 = e1 + e2;
    let p3 = p2 + e3;
    let p4 = p3 + e4;
    let p5 = p4 + e5;
    let p6 = p5 + e6;
    let p7 = p6 + e7;
    let p8 = p7 + e8;
    let p9 = p8 + e9;
    let p10 = p9 + e10;
    let p11 = p10 + e11;
    let p12 = p11 + e12;
    let p13 = p12 + e13;
    lemma_concat_assoc(p13, e14, rest);
    lemma_concat_assoc(p12, e13, r14);
    lemma_concat_assoc(p11, e12, r13);
    lemma_concat_assoc(p10, e11, r12);
    lemma_concat_assoc(p9, e10, r11);
    lemma_concat_assoc(p8, e9, r10);
    lemma_concat_assoc(p7, e8, r9);
    lemma_concat_assoc(p6, e7, r8);
    lemma_concat_assoc(p5, e6, r7);
    lemma_concat_assoc(p4, e5, r6);
    lemma_concat_assoc(p3, e4, r5);
    lemma_concat_assoc(p2, e3, r4);
    lemma_concat_assoc(e1, e2, r3);
    assert(enc_task(t) + rest == e1 + r2);
    lemma_parse_enc_u64(t.id, r2);
    lemma_parse_enc_bytes(t.name, r3);
    lemma_parse_enc_key(t.creator, r4);
    lemma_parse_enc_bytes(t.description, r5);
    lemma_parse_enc_i64(t.deadline, r6);
    lemma_parse_enc_u64(t.max_completions, r7);
    lemma_parse_enc_u64(t.num_completions, r8);
    lemma_parse_enc_key_seq(t.reviewers, r9);
    lemma_parse_enc_bool(t.completed, r10);
    lemma_parse_enc_u64(t.reward_amount, r11);
    lemma_parse_enc_i64(t.created_at, r12);
    lemma_parse_enc_bool(t.cancelled, r13);
    lemma_parse_enc_bytes(t.config, r14);
    lemma_parse_enc_bool(t.allow_self_check, rest);
}

/// Whether a submission view fits the wire format.
pub open spec fn submission_wf(v: SubmissionView) -> bool {
    &&& v.submitter.len() == 32
    &&& v.proof.len() <= u32::MAX
    &&& v.review_comment.len() <= u32::MAX
}

/// A submission record on the wire, fields in declaration order.
pub open spec fn enc_submission(v: SubmissionView) -> Seq<u8>
    recommends
        submission_wf(v),
{
    v.submitter + enc_bytes(v.proof) + enc_status(v.status) + enc_i64(v.submitted_at)
        + enc_bytes(v.review_comment)
}

pub open spec fn parse_submission(s: Seq<u8>) -> Option<(SubmissionView, Seq<u8>)> {
    match parse_key(s) {
        Some((submitter, s)) => match parse_bytes(s) {
            Some((proof, s)) => match parse_status(s) {
                Some((status, s)) => match parse_i64(s) {
                    Some((submitted_at, s)) => match parse_bytes(s) {
                        Some((review_comment, s)) => Some((
                            SubmissionView { submitter, proof, status, submitted_at, review_comment },
                            s,
                        )),
                        None => None,
                    },
                    None => None,
                },
                None => None,
            },
            None => None,
        },
        None => None,
    }
}

pub proof fn lemma_parse_enc_submission(v: SubmissionView, rest: Seq<u8>)
    requires
        submission_wf(v),
    ensures
        parse_submission(enc_submission(v) + rest) == Some((v, rest)),
{
    let e1 = v.submitter;
    let e2 = enc_bytes(v.proof);
    let e3 = enc_status(v.status);
    let e4 = enc_i64(v.submitted_at);
    let e5 = enc_bytes(v.review_comment);
    let r5 = e5 + rest;
    let r4 = e4 + r5;
    let r3 = e3 + r4;
    let r2 = e2 + r3;
    let p2 = e1 + e2;
    let p3 = p2 + e3;
    let p4 = p3 + e4;
    lemma_concat_assoc(p4, e5, rest);
    lemma_concat_assoc(p3, e4, r5);
    lemma_concat_assoc(p2, e3, r4);
    lemma_concat_assoc(e1, e2, r3);
    assert(enc_submission(v) + rest == e1 + r2);
    lemma_parse_enc_key(v.submitter, r2);
    lemma_parse_enc_bytes(v.proof, r3);
    lemma_parse_enc_status(v.status, r4);
    lemma_parse_enc_i64(v.submitted_at, r5);
    lemma_parse_enc_bytes(v.review_comment, rest);
}


// ---------------------------------------------------------------------------
// Executable two's-complement conversions
// ---------------------------------------------------------------------------

/// The wire form of a signed 64-bit value.
pub fn i64_to_wire(x: i64) -> (r: u64)
    ensures
        r == i64_as_u64(x),
{
    if x >= 0 {
        x as u64
    } else {
        let m: u64 = (-(x + 1)) as u64;
        u64::MAX - m
    }
}

/// The signed 64-bit value a wire byte group stands for.
pub fn wire_to_i64(u: u64) -> (r: i64)
    ensures
        r == u64_as_i64(u),
{
    if u < 0x8000_0000_0000_0000 {
        u as i64
    } else {
        let m: u64 = u64::MAX - u;
        -(m as i64) - 1
    }
}

/// The wire form of a signed byte.
pub fn i8_to_wire(x: i8) -> (r: u8)
    ensures
        r == i8_as_u8(x),
{
    if x >= 0 {
        x as u8
    } else {
        let m: u8 = (-(x + 1)) as u8;
        u8::MAX - m
    }
}

/// The signed byte a wire byte stands for.
pub fn wire_to_i8(u: u8) -> (r: i8)
    ensures
        r == u8_as_i8(u),
{
    if u < 0x80 {
        u as i8
    } else {
        let m: u8 = u8::MAX - u;
        -(m as i8) - 1
    }
}

// ---------------------------------------------------------------------------
// Writers: each appends one value's encoding to the output buffer.
// ---------------------------------------------------------------------------

pub fn write_u32(out: &mut Vec<u8>, x: u32)
    ensures
        final(out)@ == old(out)@ + enc_u32(x),
{
    let mut tmp = u32_to_le_bytes(x);
    out.append(&mut tmp);
}

pub fn write_u64(out: &mut Vec<u8>, x: u64)
    ensures
        final(out)@ == old(out)@ + enc_u64(x),
{
    let mut tmp = u64_to_le_bytes(x);
    out.append(&mut tmp);
}

pub fn write_i64(out: &mut Vec<u8>, x: i64)
    ensures
        final(out)@ == old(out)@ + enc_i64(x),
{
    let u = i64_to_wire(x);
    write_u64(out, u);
}

pub fn write_i8(out: &mut Vec<u8>, x: i8)
    ensures
        final(out)@ == old(out)@ + enc_i8(x),
{
    let u = i8_to_wire(x);
    out.push(u);
    proof {
        assert(old(out)@.push(u) =~= old(out)@ + enc_i8(x));
    }
}

pub fn write_bool(out: &mut Vec<u8>, b: bool)
    ensures
        final(out)@ == old(out)@ + enc_bool(b),
{
    let u: u8 = if b { 1 } else { 0 };
    out.push(u);
    proof {
        assert(old(out)@.push(u) =~= old(out)@ + enc_bool(b));
    }
}

pub fn write_status(out: &mut Vec<u8>, st: &SubmissionStatus)
    ensures
        final(out)@ == old(out)@ + enc_status(*st),
{
    let u: u8 = match st {
        SubmissionStatus::Pending => 0,
        SubmissionStatus::Approved => 1,
        SubmissionStatus::Rejected => 2,
    };
    out.push(u);
    proof {
        assert(old(out)@.push(u) =~= old(out)@ + enc_status(*st));
    }
}

pub fn write_bytes(out: &mut Vec<u8>, v: &Vec<u8>)
    requires
        v@.len() <= u32::MAX,
    ensures
        final(out)@ == old(out)@ + enc_bytes(v@),
{
    let n: u32 = v.len() as u32;
    write_u32(out, n);
    let ghost pre = out@;
    let mut i: usize = 0;
    while i < v.len()
        invariant
            i <= v@.len(),
            out@ == pre + v@.take(i as int),
        decreases v@.len() - i,
    {
        let b = v[i];
        out.push(b);
        proof {
            assert((pre + v@.take(i as int)).push(b) =~= pre + v@.take(i as int + 1));
        }
        i = i + 1;
    }
    proof {
        assert(v@.take(v@.len() as int) =~= v@);
        assert(pre + v@ =~= old(out)@ + enc_bytes(v@));
    }
}

pub fn write_key(out: &mut Vec<u8>, k: &Pubkey)
    ensures
        final(out)@ == old(out)@ + k@,
{
    let ghost pre = out@;
    let mut i: usize = 0;
    while i < 32
        invariant
            i <= 32,
            out@ == pre + k@.take(i as int),
        decreases 32 - i,
    {
        let b = k.bytes[i];
        out.push(b);
        proof {
            assert((pre + k@.take(i as int)).push(b) =~= pre + k@.take(i as int + 1));
        }
        i = i + 1;
    }
    proof {
        assert(k@.take(32) =~= k@);
    }
}

proof fn lemma_flat_keys_push(ks: Seq<Seq<u8>>, k: Seq<u8>)
    ensures
        flat_keys(ks.push(k)) == flat_keys(ks) + k,
    decreases ks.len(),
{
    if ks.len() == 0 {
        assert(ks.push(k)[0] == k);
        assert(ks.push(k).skip(1) =~= Seq::<Seq<u8>>::empty());
        assert(flat_keys(Seq::<Seq<u8>>::empty()) == Seq::<u8>::empty());
        assert(flat_keys(ks.push(k)) == k + Seq::<u8>::empty());
        assert(flat_keys(ks) == Seq::<u8>::empty());
        assert(k + Seq::<u8>::empty() =~= Seq::<u8>::empty() + k);
    } else {
        assert(ks.push(k).skip(1) =~= ks.skip(1).push(k));
        lemma_flat_keys_push(ks.skip(1), k);
        assert(ks.push(k)[0] == ks[0]);
        assert(ks[0] + (flat_keys(ks.skip(1)) + k) =~= (ks[0] + flat_keys(ks.skip(1))) + k);
    }
}

pub fn write_key_vec(out: &mut Vec<u8>, ks: &Vec<Pubkey>)
    requires
        ks@.len() <= u32::MAX,
    ensures
        final(out)@ == old(out)@ + enc_key_seq(ks@.map_values(|k: Pubkey| k@)),
{
    let n: u32 = ks.len() as u32;
    write_u32(out, n);
    let ghost views = ks@.map_values(|k: Pubkey| k@);
    let ghost pre = out@;
    let mut i: usize = 0;
    while i < ks.len()
        invariant
            i <= ks@.len(),
            views == ks@.map_values(|k: Pubkey| k@),
            out@ == pre + flat_keys(views.take(i as int)),
        decreases ks@.len() - i,
    {
        let ghost before = out@;
        write_key(out, &ks[i]);
        proof {
            assert(views.take(i as int).push(views[i as int]) =~= views.take(i as int + 1));
            lemma_flat_keys_push(views.take(i as int), views[i as int]);
        }
        i = i + 1;
    }
    proof {
        assert(views.take(views.len() as int) =~= views);
        assert(views.len() == ks@.len());
    }
}

// ---------------------------------------------------------------------------
// Record serializers
// ---------------------------------------------------------------------------

/// Encodes a board record for persistence.
pub fn board_to_bytes(b: &Board) -> (r: Vec<u8>)
    requires
        board_wf(b@),
    ensures
        r@ == enc_board(b@),
{
    let mut out: Vec<u8> = Vec::new();
    write_bool(&mut out, b.is_initialized);
    write_key(&mut out, &b.creator);
    write_bytes(&mut out, &b.name);
    write_bytes(&mut out, &b.description);
    write_bytes(&mut out, &b.img);
    write_key(&mut out, &b.reward_token);
    write_u64(&mut out, b.total_pledged);
    write_i64(&mut out, b.created_at);
    write_bool(&mut out, b.closed);
    write_bytes(&mut out, &b.config);
    proof {
        assert(out@ =~= enc_board(b@));
    }
    out
}

/// Encodes a task record for persistence.
pub fn task_to_bytes(t: &Task) -> (r: Vec<u8>)
    requires
        task_wf(t@),
    ensures
        r@ == enc_task(t@),
{
    let mut out: Vec<u8> = Vec::new();
    write_u64(&mut out, t.id);
    write_bytes(&mut out, &t.name);
    write_key(&mut out, &t.creator);
    write_bytes(&mut out, &t.description);
    write_i64(&mut out, t.deadline);
    write_u64(&mut out, t.max_completions);
    write_u64(&mut out, t.num_completions);
    write_key_vec(&mut out, &t.reviewers);
    write_bool(&mut out, t.completed);
    write_u64(&mut out, t.reward_amount);
    write_i64(&mut out, t.created_at);
    write_bool(&mut out, t.cancelled);
    write_bytes(&mut out, &t.config);
    write_bool(&mut out, t.allow_self_check);
    proof {
        assert(out@ =~= enc_task(t@));
    }
    out
}

/// Encodes a submission record for persistence.
pub fn submission_to_bytes(v: &Submission) -> (r: Vec<u8>)
    requires
        submission_wf(v@),
    ensures
        r@ == enc_submission(v@),
{
    let mut out: Vec<u8> = Vec::new();
    write_key(&mut out, &v.submitter);
    write_bytes(&mut out, &v.proof);
    write_status(&mut out, &v.status);
    write_i64(&mut out, v.submitted_at);
    write_bytes(&mut out, &v.review_comment);
    proof {
        assert(out@ =~= enc_submission(v@));
    }
    out
}


// ---------------------------------------------------------------------------
// Reader: a cursor over an input buffer, proved against the spec parsers.
// ---------------------------------------------------------------------------

/// A cursor over a byte buffer. Each `read_*` either consumes exactly what
/// the matching spec parser consumes, or reports failure and leaves the
/// cursor where it stood.
pub struct Reader<'a> {
    pub buf: &'a [u8],
    pub pos: usize,
}

impl<'a> Reader<'a> {
    /// The cursor never stands past the end of the buffer.
    pub open spec fn wf(self) -> bool {
        self.pos <= self.buf@.len()
    }

    /// The bytes not yet consumed.
    pub open spec fn rest(self) -> Seq<u8> {
        self.buf@.skip(self.pos as int)
    }

    pub fn new(buf: &'a [u8]) -> (r: Reader<'a>)
        ensures
            r.wf(),
            r.buf@ == buf@,
            r.rest() == buf@,
    {
        let r = Reader { buf, pos: 0 };
        proof {
            assert(r.rest() =~= buf@);
        }
        r
    }

    /// Whether the whole buffer has been consumed.
    pub fn done(&self) -> (r: bool)
        requires
            self.wf(),
        ensures
            r == (self.rest().len() == 0),
    {
        self.pos == self.buf.len()
    }

    pub fn read_u32(&mut self) -> (r: Option<u32>)
        requires
            old(self).wf(),
        ensures
            final(self).wf(),
            final(self).buf@ == old(self).buf@,
            r matches Some(x) ==> parse_u32(old(self).rest()) == Some((x, final(self).rest())),
            r is None ==> parse_u32(old(self).rest()) is None && final(self).rest() == old(
                self,
            ).rest(),
    {
        if self.buf.len() - self.pos < 4 {
            return None;
        }
        let s = slice_subrange(self.buf, self.pos, self.pos + 4);
        let x = u32_from_le_bytes(s);
        proof {
            assert(s@ =~= old(self).rest().take(4));
        }
        self.pos = self.pos + 4;
        proof {
            assert(self.rest() =~= old(self).rest().skip(4));
        }
        Some(x)
    }

    pub fn read_u64(&mut self) -> (r: Option<u64>)
        requires
            old(self).wf(),
        ensures
            final(self).wf(),
            final(self).buf@ == old(self).buf@,
            r matches Some(x) ==> parse_u64(old(self).rest()) == Some((x, final(self).rest())),
            r is None ==> parse_u64(old(self).rest()) is None && final(self).rest() == old(
                self,
            ).rest(),
    {
        if self.buf.len() - self.pos < 8 {
            return None;
        }
        let s = slice_subrange(self.buf, self.pos, self.pos + 8);
        let x = u64_from_le_bytes(s);
        proof {
            assert(s@ =~= old(self).rest().take(8));
        }
        self.pos = self.pos + 8;
        proof {
            assert(self.rest() =~= old(self).rest().skip(8));
        }
        Some(x)
    }

    pub fn read_i64(&mut self) -> (r: Option<i64>)
        requires
            old(self).wf(),
        ensures
            final(self).wf(),
            final(self).buf@ == old(self).buf@,
            r matches Some(x) ==> parse_i64(old(self).rest()) == Some((x, final(self).rest())),
            r is None ==> parse_i64(old(self).rest()) is None && final(self).rest() == old(
                self,
            ).rest(),
    {
        match self.read_u64() {
            Some(u) => Some(wire_to_i64(u)),
            None => None,
        }
    }

    pub fn read_i8(&mut self) -> (r: Option<i8>)
        requires
            old(self).wf(),
        ensures
            final(self).wf(),
            final(self).buf@ == old(self).buf@,
            r matches Some(x) ==> parse_i8(old(self).rest()) == Some((x, final(self).rest())),
            r is None ==> parse_i8(old(self).rest()) is None && final(self).rest() == old(
                self,
            ).rest(),
    {
        if self.pos >= self.buf.len() {
            return None;
        }
        let b = *slice_index_get(self.buf, self.pos);
        proof {
            assert(old(self).rest()[0] == self.buf@[self.pos as int]);
        }
        self.pos = self.pos + 1;
        proof {
            assert(self.rest() =~= old(self).rest().skip(1));
        }
        Some(wire_to_i8(b))
    }

    pub fn read_bool(&mut self) -> (r: Option<bool>)
        requires
            old(self).wf(),
        ensures
            final(self).wf(),
            final(self).buf@ == old(self).buf@,
            r matches Some(x) ==> parse_bool(old(self).rest()) == Some((x, final(self).rest())),
            r is None ==> parse_bool(old(self).rest()) is None && final(self).rest() == old(
                self,
            ).rest(),
    {
        if self.pos >= self.buf.len() {
            return None;
        }
        let b = *slice_index_get(self.buf, self.pos);
        proof {
            assert(old(self).rest()[0] == self.buf@[self.pos as int]);
        }
        if b > 1 {
            return None;
        }
        self.pos = self.pos + 1;
        proof {
            assert(self.rest() =~= old(self).rest().skip(1));
        }
        Some(b == 1)
    }

    pub fn read_status(&mut self) -> (r: Option<SubmissionStatus>)
        requires
            old(self).wf(),
        ensures
            final(self).wf(),
            final(self).buf@ == old(self).buf@,
            r matches Some(x) ==> parse_status(old(self).rest()) == Some((x, final(self).rest())),
            r is None ==> parse_status(old(self).rest()) is None && final(self).rest() == old(
                self,
            ).rest(),
    {
        if self.pos >= self.buf.len() {
            return None;
        }
        let b = *slice_index_get(self.buf, self.pos);
        proof {
            assert(old(self).rest()[0] == self.buf@[self.pos as int]);
        }
        if b > 2 {
            return None;
        }
        self.pos = self.pos + 1;
        proof {
            assert(self.rest() =~= old(self).rest().skip(1));
        }
        if b == 0 {
            Some(SubmissionStatus::Pending)
        } else if b == 1 {
            Some(SubmissionStatus::Approved)
        } else {
            Some(SubmissionStatus::Rejected)
        }
    }

    pub fn read_bytes(&mut self) -> (r: Option<Vec<u8>>)
        requires
            old(self).wf(),
        ensures
            final(self).wf(),
            final(self).buf@ == old(self).buf@,
            r matches Some(v) ==> parse_bytes(old(self).rest()) == Some((v@, final(self).rest())),
            r is None ==> parse_bytes(old(self).rest()) is None && final(self).rest() == old(
                self,
            ).rest(),
    {
        if self.buf.len() - self.pos < 4 {
            return None;
        }
        let s4 = slice_subrange(self.buf, self.pos, self.pos + 4);
        let n = u32_from_le_bytes(s4);
        proof {
            assert(s4@ =~= old(self).rest().take(4));
        }
        let n_usize = n as usize;
        if self.buf.len() - (self.pos + 4) < n_usize {
            proof {
                assert(old(self).rest().skip(4).len() < n);
            }
            return None;
        }
        let body = slice_subrange(self.buf, self.pos + 4, self.pos + 4 + n_usize);
        let v = slice_to_vec(body);
        self.pos = self.pos + 4 + n_usize;
        proof {
            assert(body@ =~= old(self).rest().skip(4).take(n as int));
            assert(self.rest() =~= old(self).rest().skip(4).skip(n as int));
        }
        Some(v)
    }

    pub fn read_key(&mut self) -> (r: Option<Pubkey>)
        requires
            old(self).wf(),
        ensures
            final(self).wf(),
            final(self).buf@ == old(self).buf@,
            r matches Some(k) ==> parse_key(old(self).rest()) == Some((k@, final(self).rest())),
            r is None ==> parse_key(old(self).rest()) is None && final(self).rest() == old(
                self,
            ).rest(),
    {
        if self.buf.len() - self.pos < 32 {
            return None;
        }
        let p = self.pos;
        let mut bytes = [0u8; 32];
        let mut i: usize = 0;
        while i < 32
            invariant
                i <= 32,
                p + 32 <= self.buf@.len(),
                p + 32 <= usize::MAX,
                self.pos == p,
                self.buf@ == old(self).buf@,
                forall|j: int| 0 <= j < i ==> bytes@[j] == self.buf@[p + j],
            decreases 32 - i,
        {
            bytes[i] = *slice_index_get(self.buf, p + i);
            i = i + 1;
        }
        let k = Pubkey::new(bytes);
        self.pos = self.pos + 32;
        proof {
            assert(k@ =~= old(self).rest().take(32));
            assert(self.rest() =~= old(self).rest().skip(32));
        }
        Some(k)
    }
}


proof fn lemma_parse_keys_snoc(i: nat, s0: Seq<u8>, acc: Seq<Seq<u8>>, s: Seq<u8>, k: Seq<u8>, s2: Seq<u8>)
    requires
        parse_keys(i, s0) == Some((acc, s)),
        parse_key(s) == Some((k, s2)),
    ensures
        parse_keys(i + 1, s0) == Some((acc.push(k), s2)),
    decreases i,
{
    if i == 0 {
        assert(acc =~= Seq::<Seq<u8>>::empty());
        assert(s == s0);
        assert(parse_keys(0, s2) == Some((Seq::<Seq<u8>>::empty(), s2)));
        assert(seq![k] + Seq::<Seq<u8>>::empty() =~= acc.push(k));
    } else {
        let (k0, r) = parse_key(s0)->Some_0;
        let (acc1, s1) = parse_keys((i - 1) as nat, r)->Some_0;
        assert(acc == seq![k0] + acc1);
        assert(s1 == s);
        lemma_parse_keys_snoc((i - 1) as nat, r, acc1, s, k, s2);
        assert(seq![k0] + acc1.push(k) =~= acc.push(k));
    }
}

proof fn lemma_parse_keys_fail(i: nat, n: nat, s0: Seq<u8>, acc: Seq<Seq<u8>>, s: Seq<u8>)
    requires
        parse_keys(i, s0) == Some((acc, s)),
        parse_key(s) is None,
        i < n,
    ensures
        parse_keys(n, s0) is None,
    decreases i,
{
    if i == 0 {
        assert(s == s0);
    } else {
        let (k0, r) = parse_key(s0)->Some_0;
        let (acc1, s1) = parse_keys((i - 1) as nat, r)->Some_0;
        lemma_parse_keys_fail((i - 1) as nat, (n - 1) as nat, r, acc1, s);
    }
}

impl<'a> Reader<'a> {
    pub fn read_key_vec(&mut self) -> (r: Option<Vec<Pubkey>>)
        requires
            old(self).wf(),
        ensures
            final(self).wf(),
            final(self).buf@ == old(self).buf@,
            r matches Some(ks) ==> parse_key_seq(old(self).rest()) == Some((
                ks@.map_values(|k: Pubkey| k@),
                final(self).rest(),
            )) && ks@.len() <= u32::MAX,
            r is None ==> parse_key_seq(old(self).rest()) is None && final(self).rest() == old(
                self,
            ).rest(),
    {
        let start = self.pos;
        let n = match self.read_u32() {
            Some(n) => n,
            None => {
                return None;
            },
        };
        let ghost rest1 = self.rest();
        let mut ks: Vec<Pubkey> = Vec::new();
        let mut i: u32 = 0;
        proof {
            assert(ks@.map_values(|k: Pubkey| k@) =~= Seq::<Seq<u8>>::empty());
        }
        while i < n
            invariant
                i <= n,
                ks@.len() == i,
                self.wf(),
                self.buf@ == old(self).buf@,
                start <= self.buf@.len(),
                old(self).rest() == self.buf@.skip(start as int),
                parse_u32(old(self).rest()) == Some((n, rest1)),
                parse_keys(i as nat, rest1) == Some((
                    ks@.map_values(|k: Pubkey| k@),
                    self.rest(),
                )),
            decreases n - i,
        {
            let ghost views = ks@.map_values(|k: Pubkey| k@);
            let ghost s_before = self.rest();
            let k = match self.read_key() {
                Some(k) => k,
                None => {
                    proof {
                        lemma_parse_keys_fail(i as nat, n as nat, rest1, views, s_before);
                    }
                    self.pos = start;
                    proof {
                        assert(self.rest() =~= old(self).rest());
                    }
                    return None;
                },
            };
            ks.push(k);
            proof {
                lemma_parse_keys_snoc(i as nat, rest1, views, s_before, k@, self.rest());
                assert(ks@.map_values(|kk: Pubkey| kk@) =~= views.push(k@));
            }
            i = i + 1;
        }
        Some(ks)
    }
}

// ---------------------------------------------------------------------------
// Record deserializers: a record parses from a buffer only when the whole
// buffer is exactly one well-formed encoding.
// ---------------------------------------------------------------------------

/// Decodes a board record, requiring full consumption of the buffer.
pub fn board_from_bytes(bytes: &[u8]) -> (r: Option<Board>)
    ensures
        r matches Some(b) ==> parse_board(bytes@) == Some((b@, Seq::<u8>::empty()))
            && board_wf(b@),
        r is None ==> !(parse_board(bytes@) matches Some(p) && p.1.len() == 0),
{
    let mut rd = Reader::new(bytes);
    let is_initialized = match rd.read_bool() { Some(v) => v, None => { return None; } };
    let creator = match rd.read_key() { Some(v) => v, None => { return None; } };
    let name = match rd.read_bytes() { Some(v) => v, None => { return None; } };
    let description = match rd.read_bytes() { Some(v) => v, None => { return None; } };
    let img = match rd.read_bytes() { Some(v) => v, None => { return None; } };
    let reward_token = match rd.read_key() { Some(v) => v, None => { return None; } };
    let total_pledged = match rd.read_u64() { Some(v) => v, None => { return None; } };
    let created_at = match rd.read_i64() { Some(v) => v, None => { return None; } };
    let closed = match rd.read_bool() { Some(v) => v, None => { return None; } };
    let config = match rd.read_bytes() { Some(v) => v, None => { return None; } };
    if !rd.done() {
        return None;
    }
    let b = Board {
        is_initialized,
        creator,
        name,
        description,
        img,
        reward_token,
        total_pledged,
        created_at,
        closed,
        config,
    };
    proof {
        assert(rd.rest() =~= Seq::<u8>::empty());
    }
    Some(b)
}

/// Decodes a task record, requiring full consumption of the buffer.
pub fn task_from_bytes(bytes: &[u8]) -> (r: Option<Task>)
    ensures
        r matches Some(t) ==> parse_task(bytes@) == Some((t@, Seq::<u8>::empty()))
            && task_wf(t@),
        r is None ==> !(parse_task(bytes@) matches Some(p) && p.1.len() == 0),
{
    let mut rd = Reader::new(bytes);
    let id = match rd.read_u64() { Some(v) => v, None => { return None; } };
    let name = match rd.read_bytes() { Some(v) => v, None => { return None; } };
    let creator = match rd.read_key() { Some(v) => v, None => { return None; } };
    let description = match rd.read_bytes() { Some(v) => v, None => { return None; } };
    let deadline = match rd.read_i64() { Some(v) => v, None => { return None; } };
    let max_completions = match rd.read_u64() { Some(v) => v, None => { return None; } };
    let num_completions = match rd.read_u64() { Some(v) => v, None => { return None; } };
    let reviewers = match rd.read_key_vec() { Some(v) => v, None => { return None; } };
    let completed = match rd.read_bool() { Some(v) => v, None => { return None; } };
    let reward_amount = match rd.read_u64() { Some(v) => v, None => { return None; } };
    let created_at = match rd.read_i64() { Some(v) => v, None => { return None; } };
    let cancelled = match rd.read_bool() { Some(v) => v, None => { return None; } };
    let config = match rd.read_bytes() { Some(v) => v, None => { return None; } };
    let allow_self_check = match rd.read_bool() { Some(v) => v, None => { return None; } };
    if !rd.done() {
        return None;
    }
    let t = Task {
        id,
        name,
        creator,
        description,
        deadline,
        max_completions,
        num_completions,
        reviewers,
        completed,
        reward_amount,
        created_at,
        cancelled,
        config,
        allow_self_check,
    };
    proof {
        assert(rd.rest() =~= Seq::<u8>::empty());
        assert(t@.reviewers =~= reviewers@.map_values(|k: Pubkey| k@));
        assert forall|i: int| 0 <= i < t@.reviewers.len() implies (#[trigger] t@.reviewers[i]).len()
            == 32 by {
            assert(t@.reviewers[i] == reviewers@[i]@);
        }
    }
    Some(t)
}

/// Decodes a submission record, requiring full consumption of the buffer.
pub fn submission_from_bytes(bytes: &[u8]) -> (r: Option<Submission>)
    ensures
        r matches Some(v) ==> parse_submission(bytes@) == Some((v@, Seq::<u8>::empty()))
            && submission_wf(v@),
        r is None ==> !(parse_submission(bytes@) matches Some(p) && p.1.len() == 0),
{
    let mut rd = Reader::new(bytes);
    let submitter = match rd.read_key() { Some(v) => v, None => { return None; } };
    let proof_field = match rd.read_bytes() { Some(v) => v, None => { return None; } };
    let status = match rd.read_status() { Some(v) => v, None => { return None; } };
    let submitted_at = match rd.read_i64() { Some(v) => v, None => { return None; } };
    let review_comment = match rd.read_bytes() { Some(v) => v, None => { return None; } };
    if !rd.done() {
        return None;
    }
    let v = Submission {
        submitter,
        proof: proof_field,
        status,
        submitted_at,
        review_comment,
    };
    proof {
        assert(rd.rest() =~= Seq::<u8>::empty());
    }
    Some(v)
}


// ---------------------------------------------------------------------------
// Round trips over whole records: serializing any well-formed record and
// parsing the result gives back a record equal in all fields, with nothing
// left over.
// ---------------------------------------------------------------------------

pub proof fn lemma_board_round_trip(b: BoardView)
    requires
        board_wf(b),
    ensures
        parse_board(enc_board(b)) == Some((b, Seq::<u8>::empty())),
{
    lemma_parse_enc_board(b, Seq::<u8>::empty());
    assert(enc_board(b) + Seq::<u8>::empty() =~= enc_board(b));
}

pub proof fn lemma_task_round_trip(t: TaskView)
    requires
        task_wf(t),
    ensures
        parse_task(enc_task(t)) == Some((t, Seq::<u8>::empty())),
{
    lemma_parse_enc_task(t, Seq::<u8>::empty());
    assert(enc_task(t) + Seq::<u8>::empty() =~= enc_task(t));
}

pub proof fn lemma_submission_round_trip(v: SubmissionView)
    requires
        submission_wf(v),
    ensures
        parse_submission(enc_submission(v)) == Some((v, Seq::<u8>::empty())),
{
    lemma_parse_enc_submission(v, Seq::<u8>::empty());
    assert(enc_submission(v) + Seq::<u8>::empty() =~= enc_submission(v));
}

} // verus!
