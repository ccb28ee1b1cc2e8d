//! Account addresses: the ledger's public keys in their base58 text form.

use solana_sdk::pubkey::ParsePubkeyError;
use solana_sdk::pubkey::Pubkey;
use std::str::FromStr;
use vstd::prelude::*;

verus! {

/// Number of bytes in a decoded address.
pub const ADDRESS_BYTES: usize = 32;

/// Longest text, in bytes, that can encode an address.
pub const MAX_ADDRESS_TEXT_LEN: usize = 44;

/// The error that `solana_sdk`'s public-key parser reports. Nothing is known
/// of a value of it here; only its presence is acted on.
#[verifier::external_type_specification]
#[verifier::external_body]
pub struct ExParsePubkeyError(ParsePubkeyError);

/// What `<Pubkey as FromStr>::from_str` makes of a text: the 32 decoded bytes,
/// or `None` where it reports an error. The base58 arithmetic itself is the
/// outside crate's and is not restated here.
pub uninterp spec fn pubkey_decoding(text: Seq<char>) -> Option<Seq<u8>>;

/// Calls `<Pubkey as FromStr>::from_str` and hands the key out as its bytes
/// (`Pubkey::to_bytes`).
///
/// Trusted: the outcome is the one `pubkey_decoding` names for this text, and
/// a text of more than `MAX_ADDRESS_TEXT_LEN` characters is refused (the
/// parser checks the byte length, which is never below the character count,
/// before it decodes anything).
#[verifier::external_body]
fn decode_pubkey(text: &str) -> (decoded: Result<[u8; 32], ParsePubkeyError>)
    ensures
        decoded matches Ok(bytes) ==> pubkey_decoding(text@) == Some(bytes@),
        decoded is Err ==> pubkey_decoding(text@) is None,
        text@.len() > MAX_ADDRESS_TEXT_LEN ==> decoded is Err,
{
    match Pubkey::from_str(text) {
        Ok(key) => Ok(key.to_bytes()),
        Err(failure) => Err(failure),
    }
}

/// A validated account address: the 32 bytes of a ledger public key.
#[derive(Clone, Copy, Debug, PartialEq, Eq)]
pub struct Address {
    pub bytes: [u8; ADDRESS_BYTES],
}

impl View for Address {
    type V = Seq<u8>;

    open spec fn view(&self) -> Seq<u8> {
        self.bytes@
    }
}

/// Whether a text is a well-formed address.
pub open spec fn is_valid_address(text: Seq<char>) -> bool {
    pubkey_decoding(text) is Some
}

/// Parses an address from its text form without touching the network.
pub fn parse_address(text: &str) -> (parsed: Option<Address>)
    ensures
        match parsed {
            Some(address) => pubkey_decoding(text@) == Some(address@),
            None => !is_valid_address(text@),
        },
        text@.len() > MAX_ADDRESS_TEXT_LEN ==> parsed is None,
{
    match decode_pubkey(text) {
        Ok(bytes) => Some(Address { bytes }),
        Err(_) => None,
    }
}

} // verus!
