use vstd::prelude::*;
use crate::external::{address_string, address_text};
use crate::filters::{
    filter_by_encoding, filter_by_validity, find_relevant_payload, message_candidate,
    relevant_payload,
};
use crate::model::{CompiledInstruction, H512, Instruction, TransactionWithMeta};

verus! {

/// The decoder accepts every payload and gives one answer for each sequence of bytes.
pub open spec fn decoder_is_pure<D: Fn(Vec<u8>) -> Option<Instruction>>(decode: D) -> bool {
    &&& forall|v: Vec<u8>| #[trigger] decode.requires((v,))
    &&& forall|v1: Vec<u8>, v2: Vec<u8>, a: Option<Instruction>, b: Option<Instruction>|
        #![trigger decode.ensures((v1,), a), decode.ensures((v2,), b)]
        v1@ == v2@ && decode.ensures((v1,), a) && decode.ensures((v2,), b) ==> a == b
}

/// The predicate accepts every instruction and gives one answer for each.
pub open spec fn predicate_is_pure<F: Fn(Instruction) -> bool>(pred: F) -> bool {
    &&& forall|i: Instruction| #[trigger] pred.requires((i,))
    &&& forall|i: Instruction, a: bool, b: bool|
        #![trigger pred.ensures((i,), a), pred.ensures((i,), b)]
        pred.ensures((i,), a) && pred.ensures((i,), b) ==> a == b
}

/// The payload decodes to an instruction that the predicate does not exclude.
pub open spec fn accepted<D: Fn(Vec<u8>) -> Option<Instruction>, F: Fn(Instruction) -> bool>(
    decode: D,
    pred: F,
    payload: Seq<u8>,
) -> bool {
    exists|v: Vec<u8>, ins: Instruction|
        #![trigger decode.ensures((v,), Some(ins)), pred.ensures((ins,), false)]
        v@ == payload && decode.ensures((v,), Some(ins)) && pred.ensures((ins,), false)
}

/// Whether the batch entry at hand is reported, and under which identifier.
pub open spec fn entry_match<D: Fn(Vec<u8>) -> Option<Instruction>, F: Fn(Instruction) -> bool>(
    program: Seq<char>,
    account: Seq<char>,
    t: TransactionWithMeta,
    decode: D,
    pred: F,
) -> Option<Seq<u8>> {
    match message_candidate(program, account, t) {
        Some(c) => if accepted(decode, pred, c.1) {
            Some(c.0)
        } else {
            None
        },
        None => None,
    }
}

/// The reported entries among the first `n` of the batch: their positions and identifiers,
/// in batch order.
pub open spec fn matches_upto<D: Fn(Vec<u8>) -> Option<Instruction>, F: Fn(Instruction) -> bool>(
    program: Seq<char>,
    account: Seq<char>,
    txs: Seq<TransactionWithMeta>,
    decode: D,
    pred: F,
    n: nat,
) -> Seq<(int, Seq<u8>)>
    decreases n,
{
    if n == 0 {
        Seq::empty()
    } else {
        let prev = matches_upto(program, account, txs, decode, pred, (n - 1) as nat);
        match entry_match(program, account, txs[n - 1], decode, pred) {
            Some(h) => prev.push(((n - 1) as int, h)),
            None => prev,
        }
    }
}

/// The reported entries of the whole batch.
pub open spec fn batch_matches<D: Fn(Vec<u8>) -> Option<Instruction>, F: Fn(Instruction) -> bool>(
    program: Seq<char>,
    account: Seq<char>,
    txs: Seq<TransactionWithMeta>,
    decode: D,
    pred: F,
) -> Seq<(int, Seq<u8>)> {
    matches_upto(program, account, txs, decode, pred, txs.len())
}

/// A result as positions and identifier bytes.
pub open spec fn result_view(r: Seq<(usize, H512)>) -> Seq<(int, Seq<u8>)> {
    r.map_values(|x: (usize, H512)| (x.0 as int, x.1.bytes@))
}

/// Decides one transaction from its identifier, account keys and invocations: it is reported
/// where the first call into the program (given by its base58 text) operates on the account,
/// its payload decodes, and the predicate does not exclude the decoded instruction.
fn filter_by_relevancy<D, F>(
    program: &String,
    account: &String,
    hash: H512,
    account_keys: Vec<String>,
    instructions: Vec<CompiledInstruction>,
    decode: &D,
    is_specified_message_instruction: &F,
) -> (r: Option<H512>) where D: Fn(Vec<u8>) -> Option<Instruction>, F: Fn(Instruction) -> bool
    requires
        decoder_is_pure(*decode),
        predicate_is_pure(*is_specified_message_instruction),
    ensures
        match relevant_payload(program@, account@, account_keys@, instructions@) {
            Some(p) => if accepted(*decode, *is_specified_message_instruction, p) {
                r == Some(hash)
            } else {
                r is None
            },
            None => r is None,
        },
{
    let ghost keys = account_keys@;
    let payload = match find_relevant_payload(program, account, account_keys, &instructions) {
        Some(p) => p,
        None => return None,
    };
    let ghost p = payload@;
    let ghost pv = payload;
    let decoded = decode(payload);
    let instruction = match decoded {
        Some(i) => i,
        None => {
            assert(!accepted(*decode, *is_specified_message_instruction, p));
            return None;
        },
    };
    if is_specified_message_instruction(instruction) {
        assert(!accepted(*decode, *is_specified_message_instruction, p));
        return None;
    }
    assert(decode.ensures((pv,), Some(instruction)));
    Some(hash)
}

/// Searches a batch for the transactions that call the mailbox program on the message-record
/// account with the expected instruction, and gives their positions in the batch and their
/// identifiers, in batch order.
///
/// A transaction is reported where it is in the structured encoding with metadata, its first
/// signature decodes to 64 bytes, its message is raw, its account list holds both the program
/// and the account, the first call into the program (top-level calls first, then inner ones)
/// operates on the account, its base58 payload decodes, `decode` makes an instruction of it, and
/// `is_specified_message_instruction` returns `false` for that instruction. Only the first call
/// into the program is looked at.
pub fn search_message_transactions<D, F>(
    mailbox_program_id: &[u8; 32],
    message_storage_pda_pubkey: &[u8; 32],
    transactions: Vec<TransactionWithMeta>,
    decode: &D,
    is_specified_message_instruction: &F,
) -> (r: Vec<(usize, H512)>) where D: Fn(Vec<u8>) -> Option<Instruction>, F: Fn(Instruction) -> bool
    requires
        decoder_is_pure(*decode),
        predicate_is_pure(*is_specified_message_instruction),
    ensures
        result_view(r@) == batch_matches(
            address_text(mailbox_program_id@),
            address_text(message_storage_pda_pubkey@),
            transactions@,
            *decode,
            *is_specified_message_instruction,
        ),
{
    let program = address_string(mailbox_program_id);
    let account = address_string(message_storage_pda_pubkey);
    let ghost txs = transactions@;
    let n = transactions.len();
    let mut rest = transactions;
    let mut out: Vec<(usize, H512)> = Vec::new();
    let mut index: usize = 0;
    while index < n
        invariant
            n == txs.len(),
            index <= n,
            rest@ == txs.subrange(index as int, n as int),
            result_view(out@) == matches_upto(
                program@,
                account@,
                txs,
                *decode,
                *is_specified_message_instruction,
                index as nat,
            ),
            decoder_is_pure(*decode),
            predicate_is_pure(*is_specified_message_instruction),
        decreases n - index,
    {
        let tx = rest.remove(0);
        assert(tx == txs[index as int]);
        let found = match filter_by_encoding(tx) {
            Some((t, meta)) => match filter_by_validity(t, meta) {
                Some((hash, account_keys, instructions)) => filter_by_relevancy(
                    &program,
                    &account,
                    hash,
                    account_keys,
                    instructions,
                    decode,
                    is_specified_message_instruction,
                ),
                None => None,
            },
            None => None,
        };
        let ghost before = out@;
        match found {
            Some(hash) => {
                out.push((index, hash));
                assert(result_view(out@) =~= result_view(before).push((index as int, hash.bytes@)));
            },
            None => {},
        }
        assert(rest@ =~= txs.subrange(index + 1, n as int));
        index = index + 1;
    }
    out
}

/// Excludes every instruction but an outbound dispatch: `true` means "leave this out".
pub fn is_message_dispatch_instruction(instruction: Instruction) -> (r: bool)
    ensures
        r == !(instruction is OutboxDispatch),
{
    !matches!(instruction, Instruction::OutboxDispatch)
}

/// Excludes every instruction but an inbound delivery: `true` means "leave this out".
pub fn is_message_delivery_instruction(instruction: Instruction) -> (r: bool)
    ensures
        r == !(instruction is InboxProcess),
{
    !matches!(instruction, Instruction::InboxProcess)
}

} // verus!
