use vstd::prelude::*;
use crate::filters::{first_invocation, last_index_of, message_candidate, relevant_payload};
use crate::flatten::all_instructions;
use crate::model::{EncodedTransaction, Instruction, Message, TransactionWithMeta};
use crate::search::{batch_matches, entry_match, matches_upto};

verus! {

/// The reported entries among the first `n` lie among them, in strictly increasing batch
/// order, and an entry is reported exactly when it is reported on its own.
pub proof fn lemma_matches_upto<D: Fn(Vec<u8>) -> Option<Instruction>, F: Fn(Instruction) -> bool>(
    program: Seq<char>,
    account: Seq<char>,
    txs: Seq<TransactionWithMeta>,
    decode: D,
    pred: F,
    n: nat,
)
    requires
        n <= txs.len(),
    ensures
        ({
            let m = matches_upto(program, account, txs, decode, pred, n);
            &&& forall|k: int| 0 <= k < m.len() ==> 0 <= #[trigger] m[k].0 < n
                && entry_match(program, account, txs[m[k].0], decode, pred) == Some(m[k].1)
            &&& forall|k1: int, k2: int| 0 <= k1 < k2 < m.len() ==> #[trigger] m[k1].0 < #[trigger] m[k2].0
            &&& forall|i: int| 0 <= i < n ==> (
                (exists|k: int| 0 <= k < m.len() && #[trigger] m[k].0 == i)
                <==> (#[trigger] entry_match(program, account, txs[i], decode, pred)) is Some)
        }),
    decreases n,
{
    if n > 0 {
        lemma_matches_upto(program, account, txs, decode, pred, (n - 1) as nat);
        let prev = matches_upto(program, account, txs, decode, pred, (n - 1) as nat);
        let m = matches_upto(program, account, txs, decode, pred, n);
        assert forall|i: int| 0 <= i < n implies (
            (exists|k: int| 0 <= k < m.len() && #[trigger] m[k].0 == i)
            <==> (#[trigger] entry_match(program, account, txs[i], decode, pred)) is Some) by {
            if i < n - 1 {
                if exists|k: int| 0 <= k < prev.len() && #[trigger] prev[k].0 == i {
                    let k = choose|k: int| 0 <= k < prev.len() && #[trigger] prev[k].0 == i;
                    assert(m[k] == prev[k]);
                }
                if exists|k: int| 0 <= k < m.len() && #[trigger] m[k].0 == i {
                    let k = choose|k: int| 0 <= k < m.len() && #[trigger] m[k].0 == i;
                    if k < prev.len() {
                        assert(m[k] == prev[k]);
                    }
                }
            } else {
                if entry_match(program, account, txs[i], decode, pred) is Some {
                    assert(m[prev.len() as int].0 == i);
                }
            }
        }
    }
}

/// A transaction whose account list does not hold the program is never reported, whatever
/// its instructions.
pub proof fn law_program_absent_excluded<D: Fn(Vec<u8>) -> Option<Instruction>, F: Fn(Instruction) -> bool>(
    program: Seq<char>,
    account: Seq<char>,
    txs: Seq<TransactionWithMeta>,
    decode: D,
    pred: F,
    i: int,
)
    requires
        0 <= i < txs.len(),
        txs[i].transaction matches EncodedTransaction::Json(t) && t.message matches Message::Raw(msg)
            && forall|j: int| 0 <= j < msg.account_keys@.len() ==> #[trigger] msg.account_keys@[j]@ != program,
    ensures
        forall|k: int| 0 <= k < batch_matches(program, account, txs, decode, pred).len()
            ==> (#[trigger] batch_matches(program, account, txs, decode, pred)[k]).0 != i,
{
    let t = txs[i].transaction->Json_0;
    let msg = t.message->Raw_0;
    lemma_key_absent(msg.account_keys@, program);
    lemma_matches_upto(program, account, txs, decode, pred, txs.len());
}

/// No key equal to `key` means no position for it.
proof fn lemma_key_absent(keys: Seq<String>, key: Seq<char>)
    requires
        forall|j: int| 0 <= j < keys.len() ==> #[trigger] keys[j]@ != key,
    ensures
        last_index_of(keys, key) is None,
    decreases keys.len(),
{
    if keys.len() > 0 {
        let prev = keys.drop_last();
        assert forall|j: int| 0 <= j < prev.len() implies #[trigger] prev[j]@ != key by {
            assert(prev[j] == keys[j]);
        }
        lemma_key_absent(prev, key);
    }
}

/// A transaction whose first call into the program does not operate on the account is never
/// reported.
pub proof fn law_account_not_operated_excluded<D: Fn(Vec<u8>) -> Option<Instruction>, F: Fn(Instruction) -> bool>(
    program: Seq<char>,
    account: Seq<char>,
    txs: Seq<TransactionWithMeta>,
    decode: D,
    pred: F,
    i: int,
)
    requires
        0 <= i < txs.len(),
        txs[i].transaction matches EncodedTransaction::Json(t) && t.message matches Message::Raw(msg)
            && txs[i].meta matches Some(meta)
            && last_index_of(msg.account_keys@, program) matches Some(p)
            && first_invocation(all_instructions(msg.instructions@, meta), (p % 256) as u8) matches Some(j)
            && forall|a: nat| last_index_of(msg.account_keys@, account) == Some(a)
                ==> !all_instructions(msg.instructions@, meta)[j as int].accounts@.contains((a % 256) as u8),
    ensures
        forall|k: int| 0 <= k < batch_matches(program, account, txs, decode, pred).len()
            ==> (#[trigger] batch_matches(program, account, txs, decode, pred)[k]).0 != i,
{
    let msg = txs[i].transaction->Json_0.message->Raw_0;
    let meta = txs[i].meta->Some_0;
    assert(relevant_payload(program, account, msg.account_keys@, all_instructions(msg.instructions@, meta)) is None);
    lemma_matches_upto(program, account, txs, decode, pred, txs.len());
}

/// A transaction whose first call into the program carries a payload that is not base58 is
/// never reported.
pub proof fn law_bad_payload_excluded<D: Fn(Vec<u8>) -> Option<Instruction>, F: Fn(Instruction) -> bool>(
    program: Seq<char>,
    account: Seq<char>,
    txs: Seq<TransactionWithMeta>,
    decode: D,
    pred: F,
    i: int,
)
    requires
        0 <= i < txs.len(),
        txs[i].transaction matches EncodedTransaction::Json(t) && t.message matches Message::Raw(msg)
            && txs[i].meta matches Some(meta)
            && last_index_of(msg.account_keys@, program) matches Some(p)
            && first_invocation(all_instructions(msg.instructions@, meta), (p % 256) as u8) matches Some(j)
            && crate::external::base58_decoded(all_instructions(msg.instructions@, meta)[j as int].data@) is None,
    ensures
        forall|k: int| 0 <= k < batch_matches(program, account, txs, decode, pred).len()
            ==> (#[trigger] batch_matches(program, account, txs, decode, pred)[k]).0 != i,
{
    let msg = txs[i].transaction->Json_0.message->Raw_0;
    let meta = txs[i].meta->Some_0;
    assert(relevant_payload(program, account, msg.account_keys@, all_instructions(msg.instructions@, meta)) is None);
    lemma_matches_upto(program, account, txs, decode, pred, txs.len());
}

/// Each transaction is decided on its own: it is reported, with its identifier, exactly when
/// it would be reported alone, whatever the other transactions of the batch hold.
pub proof fn law_entries_independent<D: Fn(Vec<u8>) -> Option<Instruction>, F: Fn(Instruction) -> bool>(
    program: Seq<char>,
    account: Seq<char>,
    txs: Seq<TransactionWithMeta>,
    decode: D,
    pred: F,
    i: int,
)
    requires
        0 <= i < txs.len(),
    ensures
        ({
            let m = batch_matches(program, account, txs, decode, pred);
            &&& (exists|k: int| 0 <= k < m.len() && #[trigger] m[k].0 == i)
                <==> entry_match(program, account, txs[i], decode, pred) is Some
            &&& forall|k: int| 0 <= k < m.len() && #[trigger] m[k].0 == i
                ==> entry_match(program, account, txs[i], decode, pred) == Some(m[k].1)
                && batch_matches(program, account, seq![txs[i]], decode, pred) == seq![(0int, m[k].1)]
        }),
{
    lemma_matches_upto(program, account, txs, decode, pred, txs.len());
    let alone = seq![txs[i]];
    assert(alone[0] == txs[i]);
    assert(matches_upto(program, account, alone, decode, pred, 0) == Seq::<(int, Seq<u8>)>::empty());
    if let Some(h) = entry_match(program, account, txs[i], decode, pred) {
        assert(batch_matches(program, account, alone, decode, pred) =~= seq![(0int, h)]);
    }
}

/// Results keep the batch order: positions are in range and strictly increasing.
pub proof fn law_batch_order<D: Fn(Vec<u8>) -> Option<Instruction>, F: Fn(Instruction) -> bool>(
    program: Seq<char>,
    account: Seq<char>,
    txs: Seq<TransactionWithMeta>,
    decode: D,
    pred: F,
)
    ensures
        ({
            let m = batch_matches(program, account, txs, decode, pred);
            &&& forall|k: int| 0 <= k < m.len() ==> 0 <= #[trigger] m[k].0 < txs.len()
            &&& forall|k1: int, k2: int| 0 <= k1 < k2 < m.len() ==> #[trigger] m[k1].0 < #[trigger] m[k2].0
        }),
{
    lemma_matches_upto(program, account, txs, decode, pred, txs.len());
}

/// The search is a function of its inputs: two batches that are equal give equal results.
pub proof fn law_search_deterministic<D: Fn(Vec<u8>) -> Option<Instruction>, F: Fn(Instruction) -> bool>(
    program: Seq<char>,
    account: Seq<char>,
    txs1: Seq<TransactionWithMeta>,
    txs2: Seq<TransactionWithMeta>,
    decode: D,
    pred: F,
)
    requires
        txs1 == txs2,
    ensures
        batch_matches(program, account, txs1, decode, pred)
            == batch_matches(program, account, txs2, decode, pred),
{
}

/// An empty batch, or one in which no transaction names the program, gives no result.
pub proof fn law_nothing_to_report<D: Fn(Vec<u8>) -> Option<Instruction>, F: Fn(Instruction) -> bool>(
    program: Seq<char>,
    account: Seq<char>,
    txs: Seq<TransactionWithMeta>,
    decode: D,
    pred: F,
)
    requires
        forall|i: int| 0 <= i < txs.len() ==> ((#[trigger] txs[i]).transaction matches EncodedTransaction::Json(t)
            && t.message matches Message::Raw(msg)
            && forall|j: int| 0 <= j < msg.account_keys@.len() ==> #[trigger] msg.account_keys@[j]@ != program),
    ensures
        batch_matches(program, account, txs, decode, pred).len() == 0,
{
    lemma_matches_upto(program, account, txs, decode, pred, txs.len());
    let m = batch_matches(program, account, txs, decode, pred);
    if m.len() > 0 {
        let i = m[0].0;
        law_program_absent_excluded(program, account, txs, decode, pred, i);
    }
}

} // verus!
