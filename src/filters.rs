use vstd::prelude::*;
use crate::external::{base58_decoded, from_base58};
use crate::flatten::{all_instructions, instructions};
use crate::model::{
    CompiledInstruction, EncodedTransaction, H512, Message, StatusMeta, Transaction,
    TransactionWithMeta,
};

verus! {

/// The position of the last account key equal to `key`: later keys override earlier ones.
pub open spec fn last_index_of(keys: Seq<String>, key: Seq<char>) -> Option<nat>
    decreases keys.len(),
{
    if keys.len() == 0 {
        None
    } else if keys.last()@ == key {
        Some((keys.len() - 1) as nat)
    } else {
        last_index_of(keys.drop_last(), key)
    }
}

/// The position of the first invocation of the program at account index `program`.
pub open spec fn first_invocation(ins: Seq<CompiledInstruction>, program: u8) -> Option<nat>
    decreases ins.len(),
{
    if ins.len() == 0 {
        None
    } else {
        match first_invocation(ins.drop_last(), program) {
            Some(j) => Some(j),
            None => if ins.last().program_id_index == program {
                Some((ins.len() - 1) as nat)
            } else {
                None
            },
        }
    }
}

/// The first invocation of a program lies within the sequence and calls that program.
pub proof fn lemma_first_invocation_in_range(ins: Seq<CompiledInstruction>, program: u8)
    ensures
        match first_invocation(ins, program) {
            Some(j) => j < ins.len() && ins[j as int].program_id_index == program
                && forall|k: int| 0 <= k < j ==> ins[k].program_id_index != program,
            None => forall|k: int| 0 <= k < ins.len() ==> ins[k].program_id_index != program,
        },
    decreases ins.len(),
{
    if ins.len() > 0 {
        let prev = ins.drop_last();
        lemma_first_invocation_in_range(prev, program);
        assert forall|k: int| 0 <= k < prev.len() implies prev[k] == ins[k] by {}
    }
}

/// The identifier given by a signature list: its first signature, decoded to 64 bytes.
pub open spec fn transaction_hash(signatures: Seq<String>) -> Option<Seq<u8>> {
    if signatures.len() == 0 {
        None
    } else {
        match base58_decoded(signatures[0]@) {
            Some(b) => if b.len() == 64 { Some(b) } else { None },
            None => None,
        }
    }
}

/// The payload bytes of the first invocation of `program` in `ins`, where the account list
/// holds both `program` and `account`, that invocation operates on `account`, and its payload
/// is valid base58.
pub open spec fn relevant_payload(
    program: Seq<char>,
    account: Seq<char>,
    keys: Seq<String>,
    ins: Seq<CompiledInstruction>,
) -> Option<Seq<u8>> {
    match (last_index_of(keys, program), last_index_of(keys, account)) {
        (Some(p), Some(a)) => match first_invocation(ins, (p % 256) as u8) {
            Some(j) => if ins[j as int].accounts@.contains((a % 256) as u8) {
                base58_decoded(ins[j as int].data@)
            } else {
                None
            },
            None => None,
        },
        _ => None,
    }
}

/// What a batch entry offers the search: its identifier and the payload of the invocation that
/// decides it, or `None` where its shape or contents exclude it.
pub open spec fn message_candidate(
    program: Seq<char>,
    account: Seq<char>,
    t: TransactionWithMeta,
) -> Option<(Seq<u8>, Seq<u8>)> {
    match (t.transaction, t.meta) {
        (EncodedTransaction::Json(tx), Some(meta)) => match transaction_hash(tx.signatures@) {
            Some(h) => match tx.message {
                Message::Raw(msg) => match relevant_payload(
                    program,
                    account,
                    msg.account_keys@,
                    all_instructions(msg.instructions@, meta),
                ) {
                    Some(p) => Some((h, p)),
                    None => None,
                },
                Message::Parsed => None,
            },
            None => None,
        },
        _ => None,
    }
}

/// A lookup from account key to its position in one transaction's account list.
pub struct AccountIndexMap {
    pub keys: Vec<String>,
}

impl AccountIndexMap {
    /// The position of `key`; where it occurs more than once, the last one.
    pub fn get(&self, key: &String) -> (r: Option<usize>)
        ensures
            match last_index_of(self.keys@, key@) {
                Some(i) => r matches Some(k) && k == i,
                None => r is None,
            },
    {
        let n = self.keys.len();
        let mut found: Option<usize> = None;
        let mut i: usize = 0;
        while i < n
            invariant
                n == self.keys@.len(),
                i <= n,
                match last_index_of(self.keys@.subrange(0, i as int), key@) {
                    Some(j) => found matches Some(k) && k == j,
                    None => found is None,
                },
            decreases n - i,
        {
            assert(self.keys@.subrange(0, i + 1).drop_last() =~= self.keys@.subrange(0, i as int));
            if self.keys[i] == *key {
                found = Some(i);
            }
            i = i + 1;
        }
        assert(self.keys@.subrange(0, n as int) =~= self.keys@);
        found
    }
}

/// The account list as a lookup from key to position.
pub fn account_index_map(account_keys: Vec<String>) -> (r: AccountIndexMap)
    ensures
        r.keys@ == account_keys@,
{
    AccountIndexMap { keys: account_keys }
}

/// Accepts a transaction in the structured encoding that comes with metadata.
pub fn filter_by_encoding(tx: TransactionWithMeta) -> (r: Option<(Transaction, StatusMeta)>)
    ensures
        match (tx.transaction, tx.meta) {
            (EncodedTransaction::Json(t), Some(m)) => r == Some((t, m)),
            _ => r is None,
        },
{
    match (tx.transaction, tx.meta) {
        (EncodedTransaction::Json(t), Some(m)) => Some((t, m)),
        _ => None,
    }
}

/// The 64-byte identifier written in base58 as `signature`.
pub fn decode_h512(signature: &String) -> (r: Option<H512>)
    ensures
        match base58_decoded(signature@) {
            Some(b) => if b.len() == 64 {
                r matches Some(h) && h.bytes@ == b
            } else {
                r is None
            },
            None => r is None,
        },
{
    match from_base58(signature) {
        Some(bytes) => if bytes.len() == 64 {
            Some(H512 { bytes })
        } else {
            None
        },
        None => None,
    }
}

/// Accepts a transaction whose first signature decodes to an identifier and whose message is
/// raw, and gives its identifier, account keys and every invocation it makes.
pub fn filter_by_validity(tx: Transaction, meta: StatusMeta) -> (r: Option<
    (H512, Vec<String>, Vec<CompiledInstruction>),
>)
    ensures
        match (transaction_hash(tx.signatures@), tx.message) {
            (Some(h), Message::Raw(msg)) => r matches Some(v) && v.0.bytes@ == h
                && v.1@ == msg.account_keys@ && v.2@ == all_instructions(msg.instructions@, meta),
            _ => r is None,
        },
{
    if tx.signatures.len() == 0 {
        return None;
    }
    let transaction_hash = match decode_h512(&tx.signatures[0]) {
        Some(h) => h,
        None => return None,
    };
    match tx.message {
        Message::Raw(message) => {
            let instructions = instructions(message.instructions, meta);
            Some((transaction_hash, message.account_keys, instructions))
        },
        Message::Parsed => None,
    }
}

/// Whether `accounts` holds `index`.
fn operates_on(accounts: &Vec<u8>, index: u8) -> (r: bool)
    ensures
        r == accounts@.contains(index),
{
    let mut i: usize = 0;
    while i < accounts.len()
        invariant
            i <= accounts@.len(),
            forall|j: int| 0 <= j < i ==> accounts@[j] != index,
        decreases accounts.len() - i,
    {
        if accounts[i] == index {
            return true;
        }
        i = i + 1;
    }
    false
}

/// The index of the first invocation of the program at account index `program`.
pub fn find_invocation(ins: &Vec<CompiledInstruction>, program: u8) -> (r: Option<usize>)
    ensures
        match first_invocation(ins@, program) {
            Some(j) => r matches Some(k) && k == j,
            None => r is None,
        },
{
    let n = ins.len();
    let mut found: Option<usize> = None;
    let mut i: usize = 0;
    while i < n
        invariant
            n == ins@.len(),
            i <= n,
            match first_invocation(ins@.subrange(0, i as int), program) {
                Some(j) => found matches Some(k) && k == j,
                None => found is None,
            },
        decreases n - i,
    {
        assert(ins@.subrange(0, i + 1).drop_last() =~= ins@.subrange(0, i as int));
        if found.is_none() && ins[i].program_id_index == program {
            found = Some(i);
        }
        i = i + 1;
    }
    assert(ins@.subrange(0, n as int) =~= ins@);
    found
}

/// The payload bytes of the first call into the program `program` (in base58), where it
/// operates on the account `account` (in base58).
pub fn find_relevant_payload(
    program: &String,
    account: &String,
    account_keys: Vec<String>,
    instructions: &Vec<CompiledInstruction>,
) -> (r: Option<Vec<u8>>)
    ensures
        match relevant_payload(program@, account@, account_keys@, instructions@) {
            Some(p) => r matches Some(v) && v@ == p,
            None => r is None,
        },
{
    let account_index_map = account_index_map(account_keys);
    let program_index = match account_index_map.get(program) {
        Some(i) => (i % 256) as u8,
        None => return None,
    };
    let account_index = match account_index_map.get(account) {
        Some(i) => (i % 256) as u8,
        None => return None,
    };
    proof {
        lemma_first_invocation_in_range(instructions@, program_index);
    }
    let j = match find_invocation(instructions, program_index) {
        Some(j) => j,
        None => return None,
    };
    if !operates_on(&instructions[j].accounts, account_index) {
        return None;
    }
    from_base58(&instructions[j].data)
}

} // verus!
