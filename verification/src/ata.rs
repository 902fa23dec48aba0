//! Derivation of associated token accounts.
//!
//! The canonical token account that a wallet owns for a given mint is a
//! program-derived address: a fixed, deterministic function of the wallet
//! and mint addresses alone, with no I/O and no failure for well-formed
//! 32-byte inputs.

use vstd::prelude::*;
use crate::address::Address;

verus! {

/// The canonical associated-token-account address owned by a wallet for a
/// token mint, as the associated-token-account program derives it.
pub uninterp spec fn ata_of(wallet: Seq<u8>, mint: Seq<u8>) -> Seq<u8>;

/// Relies on `spl_associated_token_account_client::address::get_associated_token_address`:
/// the standard program-derived-address search over the wallet, token
/// program and mint seeds. Its result is a 32-byte address and depends on
/// the wallet and mint alone.
#[verifier::external_body]
pub(crate) fn ata_address(wallet: &Address, mint: &Address) -> (r: Address)
    requires
        wallet.wf(),
        mint.wf(),
    ensures
        r@ == ata_of(wallet@, mint@),
        r.wf(),
{
    let w = solana_pubkey::Pubkey::try_from(wallet.as_bytes().as_slice()).unwrap();
    let m = solana_pubkey::Pubkey::try_from(mint.as_bytes().as_slice()).unwrap();
    let derived = spl_associated_token_account_client::address::get_associated_token_address(
        &w,
        &m,
    );
    Address::from_fixed(derived.to_bytes().to_vec())
}

} // verus!
