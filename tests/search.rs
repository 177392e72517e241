use sealevel_tx_search::filters::{
    account_index_map, decode_h512, filter_by_encoding, filter_by_validity, find_invocation,
    find_relevant_payload,
};
use sealevel_tx_search::flatten::instructions;
use sealevel_tx_search::model::{
    CompiledInstruction, EncodedTransaction, H512, InnerInstruction, InnerInstructions,
    Instruction, Message, RawMessage, StatusMeta, Transaction, TransactionWithMeta,
};
use sealevel_tx_search::search::{
    is_message_delivery_instruction, is_message_dispatch_instruction, search_message_transactions,
};

const PROGRAM: [u8; 32] = [3u8; 32];
const ACCOUNT: [u8; 32] = [9u8; 32];
const PAYER: [u8; 32] = [5u8; 32];

fn b58(bytes: &[u8]) -> String {
    bs58::encode(bytes).into_string()
}

fn signature(seed: u8) -> String {
    b58(&[seed; 64])
}

fn hash(seed: u8) -> H512 {
    H512 { bytes: vec![seed; 64] }
}

/// Test decoder: the first byte names the kind.
fn decode(bytes: Vec<u8>) -> Option<Instruction> {
    match bytes.first() {
        Some(0) => Some(Instruction::OutboxDispatch),
        Some(1) => Some(Instruction::InboxProcess),
        Some(2) => Some(Instruction::Other),
        _ => None,
    }
}

fn call(program_id_index: u8, accounts: Vec<u8>, kind: u8) -> CompiledInstruction {
    CompiledInstruction { program_id_index, accounts, data: b58(&[kind, 7, 7]) }
}

fn keys() -> Vec<String> {
    vec![b58(&PAYER), b58(&PROGRAM), b58(&ACCOUNT)]
}

fn entry(
    seed: u8,
    account_keys: Vec<String>,
    top: Vec<CompiledInstruction>,
    inner: Option<Vec<InnerInstructions>>,
) -> TransactionWithMeta {
    TransactionWithMeta {
        transaction: EncodedTransaction::Json(Transaction {
            signatures: vec![signature(seed)],
            message: Message::Raw(RawMessage { account_keys, instructions: top }),
        }),
        meta: Some(StatusMeta { inner_instructions: inner }),
    }
}

fn dispatch_tx(seed: u8) -> TransactionWithMeta {
    entry(seed, keys(), vec![call(1, vec![0, 2], 0)], None)
}

fn other_tx(seed: u8) -> TransactionWithMeta {
    entry(seed, keys(), vec![call(1, vec![0, 2], 2)], None)
}

fn search_dispatch(txs: Vec<TransactionWithMeta>) -> Vec<(usize, H512)> {
    search_message_transactions(&PROGRAM, &ACCOUNT, txs, &decode, &is_message_dispatch_instruction)
}

#[test]
fn dispatch_transaction_found() {
    assert_eq!(search_dispatch(vec![dispatch_tx(11)]), vec![(0, hash(11))]);
}

#[test]
fn delivery_transaction_found() {
    let tx = entry(12, keys(), vec![call(1, vec![2], 1)], None);
    let r = search_message_transactions(
        &PROGRAM,
        &ACCOUNT,
        vec![tx.clone(), dispatch_tx(13)],
        &decode,
        &is_message_delivery_instruction,
    );
    assert_eq!(r, vec![(0, hash(12))]);
}

#[test]
fn program_absent_excluded() {
    let keys = vec![b58(&PAYER), b58(&[4u8; 32]), b58(&ACCOUNT)];
    let tx = entry(14, keys, vec![call(1, vec![0, 2], 0)], None);
    assert_eq!(search_dispatch(vec![tx]), vec![]);
}

#[test]
fn account_absent_excluded() {
    let keys = vec![b58(&PAYER), b58(&PROGRAM)];
    let tx = entry(15, keys, vec![call(1, vec![0, 2], 0)], None);
    assert_eq!(search_dispatch(vec![tx]), vec![]);
}

#[test]
fn account_not_operated_excluded() {
    let tx = entry(16, keys(), vec![call(1, vec![0], 0)], None);
    assert_eq!(search_dispatch(vec![tx]), vec![]);
}

#[test]
fn program_not_called_excluded() {
    let tx = entry(17, keys(), vec![call(0, vec![2], 0)], None);
    assert_eq!(search_dispatch(vec![tx]), vec![]);
}

#[test]
fn inner_instruction_match_included() {
    let inner = vec![InnerInstructions {
        index: 0,
        instructions: vec![InnerInstruction::Parsed, InnerInstruction::Compiled(call(1, vec![2], 0))],
    }];
    let tx = entry(18, keys(), vec![call(0, vec![2], 2)], Some(inner));
    assert_eq!(search_dispatch(vec![tx]), vec![(0, hash(18))]);
}

#[test]
fn only_first_program_call_decides() {
    let tx = entry(19, keys(), vec![call(1, vec![2], 2), call(1, vec![2], 0)], None);
    assert_eq!(search_dispatch(vec![tx]), vec![]);
}

#[test]
fn malformed_payload_excluded_others_kept() {
    let bad = CompiledInstruction { program_id_index: 1, accounts: vec![2], data: "0OIl".to_string() };
    let txs = vec![dispatch_tx(20), entry(21, keys(), vec![bad], None), dispatch_tx(22)];
    assert_eq!(search_dispatch(txs), vec![(0, hash(20)), (2, hash(22))]);
}

#[test]
fn undecodable_instruction_excluded() {
    let tx = entry(23, keys(), vec![call(1, vec![2], 9)], None);
    assert_eq!(search_dispatch(vec![tx]), vec![]);
}

#[test]
fn result_order_preserved() {
    let txs = vec![other_tx(30), dispatch_tx(31), other_tx(32), dispatch_tx(33), dispatch_tx(34)];
    assert_eq!(search_dispatch(txs), vec![(1, hash(31)), (3, hash(33)), (4, hash(34))]);
}

#[test]
fn search_idempotent() {
    let txs = vec![other_tx(40), dispatch_tx(41), dispatch_tx(42)];
    let first = search_dispatch(txs.clone());
    let second = search_dispatch(txs);
    assert_eq!(first, second);
    assert_eq!(first, vec![(1, hash(41)), (2, hash(42))]);
}

#[test]
fn empty_batch_empty_result() {
    assert_eq!(search_dispatch(vec![]), vec![]);
}

#[test]
fn no_reference_empty_result() {
    let keys = vec![b58(&PAYER), b58(&ACCOUNT)];
    let txs = vec![entry(50, keys.clone(), vec![call(0, vec![1], 0)], None), entry(51, keys, vec![], None)];
    assert_eq!(search_dispatch(txs), vec![]);
}

#[test]
fn binary_encoding_excluded() {
    let tx = TransactionWithMeta {
        transaction: EncodedTransaction::Binary("AQID".to_string()),
        meta: Some(StatusMeta { inner_instructions: None }),
    };
    assert_eq!(filter_by_encoding(tx.clone()), None);
    assert_eq!(search_dispatch(vec![tx]), vec![]);
}

#[test]
fn missing_meta_excluded() {
    let mut tx = dispatch_tx(52);
    tx.meta = None;
    assert_eq!(search_dispatch(vec![tx]), vec![]);
}

#[test]
fn parsed_message_excluded() {
    let tx = TransactionWithMeta {
        transaction: EncodedTransaction::Json(Transaction {
            signatures: vec![signature(53)],
            message: Message::Parsed,
        }),
        meta: Some(StatusMeta { inner_instructions: None }),
    };
    assert_eq!(search_dispatch(vec![tx]), vec![]);
}

#[test]
fn missing_signature_excluded() {
    let mut tx = dispatch_tx(54);
    if let EncodedTransaction::Json(t) = &mut tx.transaction {
        t.signatures.clear();
    }
    assert_eq!(search_dispatch(vec![tx]), vec![]);
}

#[test]
fn short_signature_excluded() {
    let mut tx = dispatch_tx(55);
    if let EncodedTransaction::Json(t) = &mut tx.transaction {
        t.signatures = vec![b58(&[55u8; 32])];
    }
    assert_eq!(search_dispatch(vec![tx]), vec![]);
}

#[test]
fn first_signature_is_identity() {
    let mut tx = dispatch_tx(56);
    if let EncodedTransaction::Json(t) = &mut tx.transaction {
        t.signatures.push(signature(57));
    }
    assert_eq!(search_dispatch(vec![tx]), vec![(0, hash(56))]);
}

#[test]
fn predicates_exclude_on_true() {
    assert!(!is_message_dispatch_instruction(Instruction::OutboxDispatch));
    assert!(is_message_dispatch_instruction(Instruction::InboxProcess));
    assert!(is_message_dispatch_instruction(Instruction::Other));
    assert!(!is_message_delivery_instruction(Instruction::InboxProcess));
    assert!(is_message_delivery_instruction(Instruction::OutboxDispatch));
    assert!(is_message_delivery_instruction(Instruction::Other));
}

#[test]
fn decode_h512_reads_base58() {
    let sig = b58(&[0u8, 1, 2, 3].repeat(16));
    assert_eq!(decode_h512(&sig), Some(H512 { bytes: [0u8, 1, 2, 3].repeat(16) }));
    assert_eq!(decode_h512(&"1".repeat(64)), Some(H512 { bytes: vec![0u8; 64] }));
    assert_eq!(decode_h512(&"0".to_string()), None);
    assert_eq!(decode_h512(&b58(&[1u8; 63])), None);
}

#[test]
fn account_index_map_last_key_wins() {
    let map = account_index_map(vec!["a".to_string(), "b".to_string(), "a".to_string()]);
    assert_eq!(map.get(&"a".to_string()), Some(2));
    assert_eq!(map.get(&"b".to_string()), Some(1));
    assert_eq!(map.get(&"c".to_string()), None);
}

#[test]
fn instructions_top_level_then_inner() {
    let inner = vec![
        InnerInstructions { index: 0, instructions: vec![InnerInstruction::Compiled(call(4, vec![], 0))] },
        InnerInstructions {
            index: 1,
            instructions: vec![InnerInstruction::Parsed, InnerInstruction::Compiled(call(5, vec![], 0))],
        },
    ];
    let all = instructions(
        vec![call(1, vec![], 0), call(2, vec![], 0)],
        StatusMeta { inner_instructions: Some(inner) },
    );
    let programs: Vec<u8> = all.iter().map(|c| c.program_id_index).collect();
    assert_eq!(programs, vec![1, 2, 4, 5]);
    let none = instructions(vec![call(1, vec![], 0)], StatusMeta { inner_instructions: None });
    assert_eq!(none.len(), 1);
}

#[test]
fn find_invocation_first_only() {
    let ins = vec![call(0, vec![], 0), call(3, vec![], 0), call(3, vec![], 1)];
    assert_eq!(find_invocation(&ins, 3), Some(1));
    assert_eq!(find_invocation(&ins, 7), None);
}

#[test]
fn relevant_payload_decoded() {
    let ins = vec![call(1, vec![2], 1)];
    let r = find_relevant_payload(&b58(&PROGRAM), &b58(&ACCOUNT), keys(), &ins);
    assert_eq!(r, Some(vec![1u8, 7, 7]));
}

#[test]
fn validity_gives_identifier_and_keys() {
    let tx = dispatch_tx(60);
    let (t, meta) = filter_by_encoding(tx).unwrap();
    let (h, k, ins) = filter_by_validity(t, meta).unwrap();
    assert_eq!(h, hash(60));
    assert_eq!(k, keys());
    assert_eq!(ins.len(), 1);
}
