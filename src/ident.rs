//! Addresses and transaction signatures, decoded from their base58 text.
use vstd::prelude::*;

verus! {

/// The bytes that `solana_sdk`'s public-key parser decodes from a text, when it
/// accepts the text.
pub uninterp spec fn pubkey_decoded(s: Seq<char>) -> Option<Seq<u8>>;

/// The bytes that `solana_signature`'s parser decodes from a text, when it
/// accepts the text.
pub uninterp spec fn signature_decoded(s: Seq<char>) -> Option<Seq<u8>>;

/// The characters of the base58 alphabet: digits but `0`, letters but `I`, `O` and `l`.
pub open spec fn is_base58_char(c: char) -> bool {
    ('1' <= c && c <= '9') || ('A' <= c && c <= 'H') || ('J' <= c && c <= 'N') || ('P' <= c
        && c <= 'Z') || ('a' <= c && c <= 'k') || ('m' <= c && c <= 'z')
}

/// Whether some character of `s` is outside the base58 alphabet.
pub open spec fn has_non_base58_char(s: Seq<char>) -> bool {
    exists|i: int| 0 <= i < s.len() && !is_base58_char(#[trigger] s[i])
}

/// Relies on `<solana_sdk::pubkey::Pubkey as FromStr>::from_str` and
/// `Pubkey::to_bytes`: the 32 bytes of a base58 public key. The parser refuses a
/// text longer than 44 bytes, and one with a byte outside the base58 alphabet.
#[verifier::external_body]
fn decode_pubkey(s: &str) -> (r: Option<[u8; 32]>)
    ensures
        r matches Some(b) ==> pubkey_decoded(s@) == Some(b@),
        r is None ==> pubkey_decoded(s@) is None,
        s@.len() > 44 ==> r is None,
        has_non_base58_char(s@) ==> r is None,
{
    <solana_sdk::pubkey::Pubkey as std::str::FromStr>::from_str(s).ok().map(
        solana_sdk::pubkey::Pubkey::to_bytes,
    )
}

/// Relies on `<solana_signature::Signature as FromStr>::from_str` and the
/// conversion of a signature into its bytes: the 64 bytes of a base58
/// signature. The parser refuses a text longer than 88 bytes, and one with a
/// byte outside the base58 alphabet.
#[verifier::external_body]
fn decode_signature(s: &str) -> (r: Option<[u8; 64]>)
    ensures
        r matches Some(b) ==> signature_decoded(s@) == Some(b@),
        r is None ==> signature_decoded(s@) is None,
        s@.len() > 88 ==> r is None,
        has_non_base58_char(s@) ==> r is None,
{
    <solana_signature::Signature as std::str::FromStr>::from_str(s).ok().map(<[u8; 64]>::from)
}

/// The mathematical value of an identifier: the text the user gave and its bytes.
pub struct IdentifierView {
    pub text: Seq<char>,
    pub bytes: Seq<u8>,
}

/// A public key (an account, program, mint or validator), with the text it was read from.
#[derive(Clone, Debug, PartialEq)]
pub struct Address {
    pub text: String,
    pub bytes: [u8; 32],
}

impl View for Address {
    type V = IdentifierView;

    open spec fn view(&self) -> IdentifierView {
        IdentifierView { text: self.text@, bytes: self.bytes@ }
    }
}

/// A transaction signature, with the text it was read from.
#[derive(Clone, Debug, PartialEq)]
pub struct TxSignature {
    pub text: String,
    pub bytes: [u8; 64],
}

impl View for TxSignature {
    type V = IdentifierView;

    open spec fn view(&self) -> IdentifierView {
        IdentifierView { text: self.text@, bytes: self.bytes@ }
    }
}

/// Decodes a public key. It succeeds exactly when the text decodes to 32 bytes.
pub fn parse_address(s: &str) -> (r: Option<Address>)
    ensures
        r is Some <==> pubkey_decoded(s@) is Some,
        r matches Some(a) ==> a@.text == s@ && pubkey_decoded(s@) == Some(a@.bytes),
        r matches Some(a) ==> a@.bytes.len() == 32,
        s@.len() > 44 || has_non_base58_char(s@) ==> r is None,
{
    match decode_pubkey(s) {
        Some(bytes) => Some(Address { text: String::from_str(s), bytes }),
        None => None,
    }
}

/// Decodes a transaction signature. It succeeds exactly when the text decodes to 64 bytes.
pub fn parse_signature(s: &str) -> (r: Option<TxSignature>)
    ensures
        r is Some <==> signature_decoded(s@) is Some,
        r matches Some(t) ==> t@.text == s@ && signature_decoded(s@) == Some(t@.bytes),
        r matches Some(t) ==> t@.bytes.len() == 64,
        s@.len() > 88 || has_non_base58_char(s@) ==> r is None,
{
    match decode_signature(s) {
        Some(bytes) => Some(TxSignature { text: String::from_str(s), bytes }),
        None => None,
    }
}

} // verus!
