use vstd::prelude::*;

use std::str::FromStr;

use solana_sdk::pubkey::ParsePubkeyError;
use solana_sdk::pubkey::Pubkey;

verus! {

/// The RPC endpoint that balance queries are sent to.
pub const MAINNET_RPC_URL: &'static str = "https://api.mainnet-beta.solana.com";

/// The query of a balance request: the account address in base58.
#[derive(Debug, Clone)]
pub struct BalanceRequest {
    pub pubkey: String,
}

/// Why a text is not an account address, as `ParsePubkeyError` tells it.
#[derive(Debug, Clone, Copy, PartialEq, Eq)]
pub enum PubkeyParseError {
    /// The text does not decode to exactly 32 bytes.
    WrongSize,
    /// The text holds a character outside the base58 alphabet.
    Invalid,
}

/// What `Pubkey::from_str` returns for a text: the 32 address bytes, or why
/// it failed.
pub uninterp spec fn pubkey_parse_result(text: Seq<char>) -> Result<Seq<u8>, PubkeyParseError>;

/// Calls `<Pubkey as FromStr>::from_str` from solana-sdk (base58 decoding into
/// 32 bytes) and returns the address bytes.
///
/// Claimed of it: the result is `pubkey_parse_result` of the text, and a text
/// of more than 44 characters is refused as the wrong size before decoding.
#[verifier::external_body]
fn pubkey_from_str(text: &str) -> (r: Result<[u8; 32], PubkeyParseError>)
    ensures
        match pubkey_parse_result(text@) {
            Ok(bytes) => r matches Ok(a) && a@ == bytes,
            Err(e) => r matches Err(f) && f == e,
        },
        text@.len() > 44 ==> r matches Err(PubkeyParseError::WrongSize),
{
    match Pubkey::from_str(text) {
        Ok(key) => Ok(key.to_bytes()),
        Err(ParsePubkeyError::WrongSize) => Err(PubkeyParseError::WrongSize),
        Err(ParsePubkeyError::Invalid) => Err(PubkeyParseError::Invalid),
    }
}

/// The account whose balance a request asks for: the address bytes parsed
/// from its `pubkey` text, or the parse failure to report.
pub fn balance_account(request: &BalanceRequest) -> (r: Result<[u8; 32], PubkeyParseError>)
    ensures
        match pubkey_parse_result(request.pubkey@) {
            Ok(bytes) => r matches Ok(a) && a@ == bytes,
            Err(e) => r matches Err(f) && f == e,
        },
        request.pubkey@.len() > 44 ==> r matches Err(PubkeyParseError::WrongSize),
{
    pubkey_from_str(request.pubkey.as_str())
}

} // verus!
