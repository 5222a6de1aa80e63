//! Wire encoding helpers: base-58 text and the binary transaction format.
//! The two codecs themselves live in outside crates; their results are given
//! names here and everything downstream is proved against those names.

use vstd::prelude::*;

verus! {

/// What `bs58` decodes a piece of text to, if it decodes at all.
pub uninterp spec fn base58_decode_of(s: Seq<char>) -> Option<Seq<u8>>;

/// The base-58 digits of a byte string.
pub uninterp spec fn base58_of(b: Seq<u8>) -> Seq<char>;

/// What the wire decoder reads out of raw transaction bytes: the first
/// signature and the referenced blockhash, if the bytes deserialize at all.
pub uninterp spec fn wire_decode_of(raw: Seq<u8>) -> Option<(Seq<u8>, Seq<u8>)>;

/// The two fields of a wire transaction that the bridge's logic reads.
pub struct ParsedTransaction {
    /// Raw 64 bytes of the transaction's first signature.
    pub signature: Vec<u8>,
    /// Raw 32 bytes of the blockhash the transaction references.
    pub blockhash: Vec<u8>,
}

/// Relies on `bs58::decode`: base-58 digits to bytes, erring on any character
/// outside the alphabet.
#[verifier::external_body]
pub(crate) fn base58_decode(s: &str) -> (r: Option<Vec<u8>>)
    ensures
        r is Some <==> base58_decode_of(s@) is Some,
        r is Some ==> r.unwrap()@ == base58_decode_of(s@).unwrap(),
{
    bs58::decode(s).into_vec().ok()
}

/// Relies on `bs58::encode`: the base-58 digits of the given bytes.
#[verifier::external_body]
pub(crate) fn base58_encode(b: &Vec<u8>) -> (r: String)
    ensures
        r@ == base58_of(b@),
{
    bs58::encode(b.as_slice()).into_string()
}

/// Relies on `bincode::deserialize` for `solana_sdk`'s `VersionedTransaction`,
/// and on `VersionedMessage::recent_blockhash` to pick the referenced hash out
/// of the message. Only the first signature and that hash are kept; a
/// transaction carrying no signature at all is treated as undecodable.
#[verifier::external_body]
pub(crate) fn wire_decode(raw: &Vec<u8>) -> (r: Option<ParsedTransaction>)
    ensures
        r is Some <==> wire_decode_of(raw@) is Some,
        r is Some ==> r.unwrap().signature@ == wire_decode_of(raw@).unwrap().0,
        r is Some ==> r.unwrap().blockhash@ == wire_decode_of(raw@).unwrap().1,
{
    match bincode::deserialize::<solana_sdk::transaction::VersionedTransaction>(raw) {
        Ok(tx) => {
            let sig = tx.signatures.first()?;
            Some(ParsedTransaction {
                signature: sig.as_ref().to_vec(),
                blockhash: tx.message.recent_blockhash().to_bytes().to_vec(),
            })
        }
        Err(_) => None,
    }
}

/// What parsing a base-58 string that must name exactly 32 bytes (a blockhash
/// or a public key) yields.
pub open spec fn spec_parse_base58_32(s: Seq<char>) -> Option<Seq<u8>> {
    match base58_decode_of(s) {
        Some(b) => if b.len() == 32 {
            Some(b)
        } else {
            None
        },
        None => None,
    }
}

/// Parse a base-58 string that must name exactly 32 raw bytes, as blockhashes
/// and public keys do; anything of another length is rejected.
pub fn parse_base58_32(s: &str) -> (r: Option<Vec<u8>>)
    ensures
        r is Some <==> spec_parse_base58_32(s@) is Some,
        r is Some ==> r.unwrap()@ == spec_parse_base58_32(s@).unwrap(),
{
    match base58_decode(s) {
        Some(b) => if b.len() == 32 {
            Some(b)
        } else {
            None
        },
        None => None,
    }
}

} // verus!
