use vstd::prelude::*;

verus! {

/// A 64-byte transaction identifier (the first signature of a transaction).
#[derive(Clone, Debug, PartialEq, Eq)]
pub struct H512 {
    pub bytes: Vec<u8>,
}

/// The kind of a decoded mailbox instruction, as far as the search tells kinds apart.
#[derive(Clone, Copy, Debug, PartialEq, Eq)]
pub enum Instruction {
    OutboxDispatch,
    InboxProcess,
    Other,
}

/// One invocation: the index of the called program in the account list, the indices of the
/// accounts it operates on, and its payload in base58.
#[derive(Clone, Debug, PartialEq, Eq)]
pub struct CompiledInstruction {
    pub program_id_index: u8,
    pub accounts: Vec<u8>,
    pub data: String,
}

/// An invocation recorded in an inner-instruction trace.
#[derive(Clone, Debug, PartialEq, Eq)]
pub enum InnerInstruction {
    Compiled(CompiledInstruction),
    Parsed,
}

/// The nested invocations made while executing one top-level instruction.
#[derive(Clone, Debug, PartialEq, Eq)]
pub struct InnerInstructions {
    pub index: u8,
    pub instructions: Vec<InnerInstruction>,
}

/// A message in raw form: account keys in base58 and compiled top-level instructions.
#[derive(Clone, Debug, PartialEq, Eq)]
pub struct RawMessage {
    pub account_keys: Vec<String>,
    pub instructions: Vec<CompiledInstruction>,
}

#[derive(Clone, Debug, PartialEq, Eq)]
pub enum Message {
    Raw(RawMessage),
    Parsed,
}

/// A transaction in the structured (JSON) encoding.
#[derive(Clone, Debug, PartialEq, Eq)]
pub struct Transaction {
    pub signatures: Vec<String>,
    pub message: Message,
}

/// Execution metadata; `None` traces stand for a node that left them out.
#[derive(Clone, Debug, PartialEq, Eq)]
pub struct StatusMeta {
    pub inner_instructions: Option<Vec<InnerInstructions>>,
}

#[derive(Clone, Debug, PartialEq, Eq)]
pub enum EncodedTransaction {
    Json(Transaction),
    Binary(String),
}

/// One entry of a block as a node returns it.
#[derive(Clone, Debug, PartialEq, Eq)]
pub struct TransactionWithMeta {
    pub transaction: EncodedTransaction,
    pub meta: Option<StatusMeta>,
}

} // verus!
