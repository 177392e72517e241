use vstd::prelude::*;

verus! {

/// The bytes that a base58 text stands for, or `None` where it is not valid base58.
pub uninterp spec fn base58_decoded(s: Seq<char>) -> Option<Seq<u8>>;

/// The base58 text of a 32-byte account address.
pub uninterp spec fn address_text(key: Seq<u8>) -> Seq<char>;

/// Relies on `bs58::decode(..).into_vec()`: the bytes of a base58 text, an error where a
/// character is outside the alphabet.
#[verifier::external_body]
pub(crate) fn from_base58(s: &String) -> (r: Option<Vec<u8>>)
    ensures
        match r {
            Some(v) => base58_decoded(s@) == Some(v@),
            None => base58_decoded(s@) is None,
        },
{
    bs58::decode(s.as_bytes()).into_vec().ok()
}

/// Relies on the `Display` of `solana_sdk::pubkey::Pubkey`: the address in base58.
#[verifier::external_body]
pub(crate) fn address_string(key: &[u8; 32]) -> (r: String)
    ensures
        r@ == address_text(key@),
{
    solana_sdk::pubkey::Pubkey::new_from_array(*key).to_string()
}

} // verus!
