//! The sender's identity, resolved from private key material.

use crate::address::Address;
use ethers::signers::{LocalWallet, Signer};
use vstd::prelude::*;

verus! {

/// The address of the account that the private key written in `key` controls,
/// `None` where `key` is no private key. What it is on a given text is left to
/// the signing library; the same text always gives the same answer.
pub uninterp spec fn signer_address(key: Seq<char>) -> Option<Seq<u8>>;

/// Reads a private key with `ethers::signers::LocalWallet`'s `from_str` and
/// returns the address that the wallet reports for it (`Signer::address`).
///
/// Nothing is proved of this function. The contract only gives the answer its
/// name: the address returned, or the refusal, is `signer_address` of the text.
#[verifier::external_body]
pub(crate) fn resolve_signer(key: &str) -> (r: Option<Address>)
    ensures
        match r {
            Some(address) => signer_address(key@) == Some(address@),
            None => signer_address(key@) is None,
        },
{
    match key.parse::<LocalWallet>() {
        Ok(wallet) => Some(Address { bytes: wallet.address().0 }),
        Err(_) => None,
    }
}

} // verus!
