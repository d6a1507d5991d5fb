//! The instruction payload: an opaque byte string decoded into one of the
//! eight typed commands.
//!
//! Byte 0 is a reserved format tag that must equal zero (a versioning hook);
//! byte 1 selects the command variant; the variant's fields follow in
//! declaration order, in the shared wire format. The whole payload must be
//! consumed exactly.

use vstd::prelude::*;
use crate::codec::{
    Reader, enc_bytes, enc_bool, enc_i64, enc_u64, enc_i8, i8_as_u8, u8_as_i8, parse_bytes,
    parse_bool, parse_i64, parse_u64, parse_i8, write_bytes, write_bool,
    write_i64, write_u64, write_i8, lemma_parse_enc_bytes, lemma_parse_enc_bool,
    lemma_parse_enc_i64, lemma_parse_enc_u64, lemma_parse_enc_i8,
};

verus! {

broadcast use vstd::string::to_string_from_display_ensures_for_str;

/// The mathematical value of a decoded instruction.
pub ghost enum InstructionView {
    InitializeBoard { name: Seq<u8>, description: Seq<u8>, img: Seq<u8>, config: Seq<u8> },
    CreateTask {
        name: Seq<u8>,
        description: Seq<u8>,
        deadline: i64,
        max_completions: u64,
        reward_amount: u64,
        config: Seq<u8>,
        allow_self_check: bool,
    },
    JoinBoard,
    SubmitProof { proof: Seq<u8> },
    ReviewSubmission { status: i8, review_comment: Seq<u8> },
    SelfCheckSubmission { signature: Seq<u8>, check_data: Seq<u8> },
    PledgeTokens { amount: u64 },
    CloseBoard,
}

/// One of the eight commands the dispatcher routes on. Free-text and binary
/// fields are raw bytes, as they travel on the wire.
#[derive(Clone, Debug, PartialEq, Eq)]
pub enum BountyBoardInstruction {
    /// Initialize a new board.
    InitializeBoard { name: Vec<u8>, description: Vec<u8>, img: Vec<u8>, config: Vec<u8> },
    /// Create a new task in a board; the caller must be the board creator.
    CreateTask {
        name: Vec<u8>,
        description: Vec<u8>,
        deadline: i64,
        max_completions: u64,
        reward_amount: u64,
        config: Vec<u8>,
        allow_self_check: bool,
    },
    /// Join a board as a member.
    JoinBoard,
    /// Submit proof for a task.
    SubmitProof { proof: Vec<u8> },
    /// Review a submission: 1 approves, -1 rejects, anything else leaves it
    /// pending.
    ReviewSubmission { status: i8, review_comment: Vec<u8> },
    /// Submit and self-approve, presenting a signed voucher.
    SelfCheckSubmission { signature: Vec<u8>, check_data: Vec<u8> },
    /// Pledge reward tokens to a board.
    PledgeTokens { amount: u64 },
    /// Close a board, returning the pledged pool to its creator.
    CloseBoard,
}

impl View for BountyBoardInstruction {
    type V = InstructionView;

    open spec fn view(&self) -> InstructionView {
        match self {
            BountyBoardInstruction::InitializeBoard { name, description, img, config } =>
                InstructionView::InitializeBoard {
                    name: name@,
                    description: description@,
                    img: img@,
                    config: config@,
                },
            BountyBoardInstruction::CreateTask {
                name,
                description,
                deadline,
                max_completions,
                reward_amount,
                config,
                allow_self_check,
            } => InstructionView::CreateTask {
                name: name@,
                description: description@,
                deadline: *deadline,
                max_completions: *max_completions,
                reward_amount: *reward_amount,
                config: config@,
                allow_self_check: *allow_self_check,
            },
            BountyBoardInstruction::JoinBoard => InstructionView::JoinBoard,
            BountyBoardInstruction::SubmitProof { proof } => InstructionView::SubmitProof {
                proof: proof@,
            },
            BountyBoardInstruction::ReviewSubmission { status, review_comment } =>
                InstructionView::ReviewSubmission {
                    status: *status,
                    review_comment: review_comment@,
                },
            BountyBoardInstruction::SelfCheckSubmission { signature, check_data } =>
                InstructionView::SelfCheckSubmission {
                    signature: signature@,
                    check_data: check_data@,
                },
            BountyBoardInstruction::PledgeTokens { amount } => InstructionView::PledgeTokens {
                amount: *amount,
            },
            BountyBoardInstruction::CloseBoard => InstructionView::CloseBoard,
        }
    }
}

/// Whether an instruction's variable-length fields fit their length prefixes.
pub open spec fn instruction_wf(v: InstructionView) -> bool {
    match v {
        InstructionView::InitializeBoard { name, description, img, config } => name.len()
            <= u32::MAX && description.len() <= u32::MAX && img.len() <= u32::MAX && config.len()
            <= u32::MAX,
        InstructionView::CreateTask { name, description, config, .. } => name.len() <= u32::MAX
            && description.len() <= u32::MAX && config.len() <= u32::MAX,
        InstructionView::JoinBoard => true,
        InstructionView::SubmitProof { proof } => proof.len() <= u32::MAX,
        InstructionView::ReviewSubmission { review_comment, .. } => review_comment.len()
            <= u32::MAX,
        InstructionView::SelfCheckSubmission { signature, check_data } => signature.len()
            <= u32::MAX && check_data.len() <= u32::MAX,
        InstructionView::PledgeTokens { .. } => true,
        InstructionView::CloseBoard => true,
    }
}

/// An instruction's command part on the wire (everything after the tag byte):
/// a one-byte variant ordinal, then the fields in declaration order.
pub open spec fn enc_instruction(v: InstructionView) -> Seq<u8>
    recommends
        instruction_wf(v),
{
    match v {
        InstructionView::InitializeBoard { name, description, img, config } => seq![0u8]
            + enc_bytes(name) + enc_bytes(description) + enc_bytes(img) + enc_bytes(config),
        InstructionView::CreateTask {
            name,
            description,
            deadline,
            max_completions,
            reward_amount,
            config,
            allow_self_check,
        } => seq![1u8] + enc_bytes(name) + enc_bytes(description) + enc_i64(deadline) + enc_u64(
            max_completions,
        ) + enc_u64(reward_amount) + enc_bytes(config) + enc_bool(allow_self_check),
        InstructionView::JoinBoard => seq![2u8],
        InstructionView::SubmitProof { proof } => seq![3u8] + enc_bytes(proof),
        InstructionView::ReviewSubmission { status, review_comment } => seq![4u8] + enc_i8(status)
            + enc_bytes(review_comment),
        InstructionView::SelfCheckSubmission { signature, check_data } => seq![5u8] + enc_bytes(
            signature,
        ) + enc_bytes(check_data),
        InstructionView::PledgeTokens { amount } => seq![6u8] + enc_u64(amount),
        InstructionView::CloseBoard => seq![7u8],
    }
}

pub open spec fn parse_initialize_board(s: Seq<u8>) -> Option<(InstructionView, Seq<u8>)> {
    match parse_bytes(s) {
        Some((name, s)) => match parse_bytes(s) {
            Some((description, s)) => match parse_bytes(s) {
                Some((img, s)) => match parse_bytes(s) {
                    Some((config, s)) => Some((
                        InstructionView::InitializeBoard { name, description, img, config },
                        s,
                    )),
                    None => None,
                },
                None => None,
            },
            None => None,
        },
        None => None,
    }
}

pub open spec fn parse_create_task(s: Seq<u8>) -> Option<(InstructionView, Seq<u8>)> {
    match parse_bytes(s) {
        Some((name, s)) => match parse_bytes(s) {
            Some((description, s)) => match parse_i64(s) {
                Some((deadline, s)) => match parse_u64(s) {
                    Some((max_completions, s)) => match parse_u64(s) {
                        Some((reward_amount, s)) => match parse_bytes(s) {
                            Some((config, s)) => match parse_bool(s) {
                                Some((allow_self_check, s)) => Some((
                                    InstructionView::CreateTask {
                                        name,
                                        description,
                                        deadline,
                                        max_completions,
                                        reward_amount,
                                        config,
                                        allow_self_check,
                                    },
                                    s,
                                )),
                                None => None,
                            },
                            None => None,
                        },
                        None => None,
                    },
                    None => None,
                },
                None => None,
            },
            None => None,
        },
        None => None,
    }
}

pub open spec fn parse_review_submission(s: Seq<u8>) -> Option<(InstructionView, Seq<u8>)> {
    match parse_i8(s) {
        Some((status, s)) => match parse_bytes(s) {
            Some((review_comment, s)) => Some((
                InstructionView::ReviewSubmission { status, review_comment },
                s,
            )),
            None => None,
        },
        None => None,
    }
}

pub open spec fn parse_self_check(s: Seq<u8>) -> Option<(InstructionView, Seq<u8>)> {
    match parse_bytes(s) {
        Some((signature, s)) => match parse_bytes(s) {
            Some((check_data, s)) => Some((
                InstructionView::SelfCheckSubmission { signature, check_data },
                s,
            )),
            None => None,
        },
        None => None,
    }
}

/// The command part of the payload: ordinal byte, then the variant's fields.
pub open spec fn parse_instruction(s: Seq<u8>) -> Option<(InstructionView, Seq<u8>)> {
    if s.len() < 1 {
        None
    } else {
        let rest = s.skip(1);
        if s[0] == 0u8 {
            parse_initialize_board(rest)
        } else if s[0] == 1u8 {
            parse_create_task(rest)
        } else if s[0] == 2u8 {
            Some((InstructionView::JoinBoard, rest))
        } else if s[0] == 3u8 {
            match parse_bytes(rest) {
                Some((proof, s2)) => Some((InstructionView::SubmitProof { proof }, s2)),
                None => None,
            }
        } else if s[0] == 4u8 {
            parse_review_submission(rest)
        } else if s[0] == 5u8 {
            parse_self_check(rest)
        } else if s[0] == 6u8 {
            match parse_u64(rest) {
                Some((amount, s2)) => Some((InstructionView::PledgeTokens { amount }, s2)),
                None => None,
            }
        } else if s[0] == 7u8 {
            Some((InstructionView::CloseBoard, rest))
        } else {
            None
        }
    }
}

/// Whether a whole payload decodes: a zero tag byte, then a command that
/// consumes the remainder exactly.
pub open spec fn payload_decodes(input: Seq<u8>) -> bool {
    &&& input.len() >= 1
    &&& input[0] == 0u8
    &&& parse_instruction(input.skip(1)) matches Some(p) && p.1.len() == 0
}

/// The command a whole payload decodes to.
pub open spec fn decoded_payload(input: Seq<u8>) -> InstructionView
    recommends
        payload_decodes(input),
{
    parse_instruction(input.skip(1))->Some_0.0
}

impl BountyBoardInstruction {
    /// Decodes an instruction payload.
    ///
    /// An empty payload or a nonzero tag byte is refused as an invalid
    /// instruction; a command part that does not decode exactly is refused
    /// as invalid instruction data.
    pub fn unpack(input: &[u8]) -> (r: Result<BountyBoardInstruction, String>)
        ensures
            r matches Ok(ins) ==> payload_decodes(input@) && ins@ == decoded_payload(input@),
            r is Err ==> !payload_decodes(input@),
            r matches Err(m) ==> (if input@.len() == 0 || input@[0] != 0u8 {
                m@ == "Invalid instruction"@
            } else {
                m@ == "Invalid instruction data"@
            }),
    {
        let mut rd = Reader::new(input);
        let tag = match rd.read_bool() {
            Some(t) => t,
            None => {
                if input.len() == 0 {
                    return Err("Invalid instruction".to_string());
                }
                // a nonzero first byte may fail the boolean read too
                let first = *vstd::slice::slice_index_get(input, 0);
                if first != 0 {
                    return Err("Invalid instruction".to_string());
                }
                return Err("Invalid instruction data".to_string());
            },
        };
        if tag {
            return Err("Invalid instruction".to_string());
        }
        proof {
            assert(input@[0] == 0u8);
            assert(rd.rest() == input@.skip(1));
        }
        let r = Self::unpack_command(&mut rd);
        match r {
            Some(ins) => {
                if rd.done() {
                    proof {
                        assert(rd.rest() =~= Seq::<u8>::empty());
                    }
                    Ok(ins)
                } else {
                    Err("Invalid instruction data".to_string())
                }
            },
            None => Err("Invalid instruction data".to_string()),
        }
    }

    /// Decodes the command part: ordinal byte, then the variant's fields.
    fn unpack_command(rd: &mut Reader<'_>) -> (r: Option<BountyBoardInstruction>)
        requires
            old(rd).wf(),
        ensures
            final(rd).wf(),
            final(rd).buf@ == old(rd).buf@,
            r matches Some(ins) ==> parse_instruction(old(rd).rest()) == Some((
                ins@,
                final(rd).rest(),
            )),
            r is None ==> parse_instruction(old(rd).rest()) is None,
    {
        let ord = match rd.read_i8() {
            Some(x) => x,
            None => {
                return None;
            },
        };
        proof {
            assert(old(rd).rest()[0] == i8_as_u8(ord));
        }
        if ord == 0 {
            let name = match rd.read_bytes() { Some(v) => v, None => { return None; } };
            let description = match rd.read_bytes() { Some(v) => v, None => { return None; } };
            let img = match rd.read_bytes() { Some(v) => v, None => { return None; } };
            let config = match rd.read_bytes() { Some(v) => v, None => { return None; } };
            Some(BountyBoardInstruction::InitializeBoard { name, description, img, config })
        } else if ord == 1 {
            let name = match rd.read_bytes() { Some(v) => v, None => { return None; } };
            let description = match rd.read_bytes() { Some(v) => v, None => { return None; } };
            let deadline = match rd.read_i64() { Some(v) => v, None => { return None; } };
            let max_completions = match rd.read_u64() { Some(v) => v, None => { return None; } };
            let reward_amount = match rd.read_u64() { Some(v) => v, None => { return None; } };
            let config = match rd.read_bytes() { Some(v) => v, None => { return None; } };
            let allow_self_check = match rd.read_bool() { Some(v) => v, None => { return None; } };
            Some(BountyBoardInstruction::CreateTask {
                name,
                description,
                deadline,
                max_completions,
                reward_amount,
                config,
                allow_self_check,
            })
        } else if ord == 2 {
            Some(BountyBoardInstruction::JoinBoard)
        } else if ord == 3 {
            let proof_field = match rd.read_bytes() { Some(v) => v, None => { return None; } };
            Some(BountyBoardInstruction::SubmitProof { proof: proof_field })
        } else if ord == 4 {
            let status = match rd.read_i8() { Some(v) => v, None => { return None; } };
            let review_comment = match rd.read_bytes() { Some(v) => v, None => { return None; } };
            Some(BountyBoardInstruction::ReviewSubmission { status, review_comment })
        } else if ord == 5 {
            let signature = match rd.read_bytes() { Some(v) => v, None => { return None; } };
            let check_data = match rd.read_bytes() { Some(v) => v, None => { return None; } };
            Some(BountyBoardInstruction::SelfCheckSubmission { signature, check_data })
        } else if ord == 6 {
            let amount = match rd.read_u64() { Some(v) => v, None => { return None; } };
            Some(BountyBoardInstruction::PledgeTokens { amount })
        } else if ord == 7 {
            Some(BountyBoardInstruction::CloseBoard)
        } else {
            None
        }
    }

    /// Encodes this command as a full payload: the zero tag byte, then the
    /// command on the wire.
    pub fn pack(&self) -> (r: Vec<u8>)
        requires
            instruction_wf(self@),
        ensures
            r@ == seq![0u8] + enc_instruction(self@),
            payload_decodes(r@),
            decoded_payload(r@) == self@,
    {
        let mut out: Vec<u8> = Vec::new();
        out.push(0u8);
        match self {
            BountyBoardInstruction::InitializeBoard { name, description, img, config } => {
                out.push(0u8);
                write_bytes(&mut out, name);
                write_bytes(&mut out, description);
                write_bytes(&mut out, img);
                write_bytes(&mut out, config);
            },
            BountyBoardInstruction::CreateTask {
                name,
                description,
                deadline,
                max_completions,
                reward_amount,
                config,
                allow_self_check,
            } => {
                out.push(1u8);
                write_bytes(&mut out, name);
                write_bytes(&mut out, description);
                write_i64(&mut out, *deadline);
                write_u64(&mut out, *max_completions);
                write_u64(&mut out, *reward_amount);
                write_bytes(&mut out, config);
                write_bool(&mut out, *allow_self_check);
            },
            BountyBoardInstruction::JoinBoard => {
                out.push(2u8);
            },
            BountyBoardInstruction::SubmitProof { proof } => {
                out.push(3u8);
                write_bytes(&mut out, proof);
            },
            BountyBoardInstruction::ReviewSubmission { status, review_comment } => {
                out.push(4u8);
                write_i8(&mut out, *status);
                write_bytes(&mut out, review_comment);
            },
            BountyBoardInstruction::SelfCheckSubmission { signature, check_data } => {
                out.push(5u8);
                write_bytes(&mut out, signature);
                write_bytes(&mut out, check_data);
            },
            BountyBoardInstruction::PledgeTokens { amount } => {
                out.push(6u8);
                write_u64(&mut out, *amount);
            },
            BountyBoardInstruction::CloseBoard => {
                out.push(7u8);
            },
        }
        proof {
            assert(out@ =~= seq![0u8] + enc_instruction(self@));
            lemma_parse_enc_instruction(self@, Seq::<u8>::empty());
            assert(enc_instruction(self@) + Seq::<u8>::empty() =~= enc_instruction(self@));
            assert(out@.skip(1) =~= enc_instruction(self@));
        }
        out
    }
}

/// Parsing an encoded command, followed by anything, yields the command and
/// leaves exactly the rest.
pub proof fn lemma_parse_enc_instruction(v: InstructionView, rest: Seq<u8>)
    requires
        instruction_wf(v),
    ensures
        parse_instruction(enc_instruction(v) + rest) == Some((v, rest)),
{
    let s = enc_instruction(v) + rest;
    assert(s.len() >= 1);
    match v {
        InstructionView::InitializeBoard { name, description, img, config } => {
            let e1 = enc_bytes(name);
            let e2 = enc_bytes(description);
            let e3 = enc_bytes(img);
            let e4 = enc_bytes(config);
            let r4 = e4 + rest;
            let r3 = e3 + r4;
            let r2 = e2 + r3;
            let r1 = e1 + r2;
            assert(s.skip(1) =~= r1);
            lemma_parse_enc_bytes(name, r2);
            lemma_parse_enc_bytes(description, r3);
            lemma_parse_enc_bytes(img, r4);
            lemma_parse_enc_bytes(config, rest);
        },
        InstructionView::CreateTask {
            name,
            description,
            deadline,
            max_completions,
            reward_amount,
            config,
            allow_self_check,
        } => {
            let e1 = enc_bytes(name);
            let e2 = enc_bytes(description);
            let e3 = enc_i64(deadline);
            let e4 = enc_u64(max_completions);
            let e5 = enc_u64(reward_amount);
            let e6 = enc_bytes(config);
            let e7 = enc_bool(allow_self_check);
            let r7 = e7 + rest;
            let r6 = e6 + r7;
            let r5 = e5 + r6;
            let r4 = e4 + r5;
            let r3 = e3 + r4;
            let r2 = e2 + r3;
            let r1 = e1 + r2;
            assert(s.skip(1) =~= r1);
            lemma_parse_enc_bytes(name, r2);
            lemma_parse_enc_bytes(description, r3);
            lemma_parse_enc_i64(deadline, r4);
            lemma_parse_enc_u64(max_completions, r5);
            lemma_parse_enc_u64(reward_amount, r6);
            lemma_parse_enc_bytes(config, r7);
            lemma_parse_enc_bool(allow_self_check, rest);
        },
        InstructionView::JoinBoard => {
            assert(s.skip(1) =~= rest);
        },
        InstructionView::SubmitProof { proof } => {
            assert(s.skip(1) =~= enc_bytes(proof) + rest);
            lemma_parse_enc_bytes(proof, rest);
        },
        InstructionView::ReviewSubmission { status, review_comment } => {
            let e1 = enc_i8(status);
            let e2 = enc_bytes(review_comment);
            let r2 = e2 + rest;
            let r1 = e1 + r2;
            assert(s.skip(1) =~= r1);
            lemma_parse_enc_i8(status, r2);
            lemma_parse_enc_bytes(review_comment, rest);
        },
        InstructionView::SelfCheckSubmission { signature, check_data } => {
            let e1 = enc_bytes(signature);
            let e2 = enc_bytes(check_data);
            let r2 = e2 + rest;
            let r1 = e1 + r2;
            assert(s.skip(1) =~= r1);
            lemma_parse_enc_bytes(signature, r2);
            lemma_parse_enc_bytes(check_data, rest);
        },
        InstructionView::PledgeTokens { amount } => {
            assert(s.skip(1) =~= enc_u64(amount) + rest);
            lemma_parse_enc_u64(amount, rest);
        },
        InstructionView::CloseBoard => {
            assert(s.skip(1) =~= rest);
        },
    }
}

} // verus!
