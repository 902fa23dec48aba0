//! The top-up-interest instruction.
//!
//! The on-chain vaults program accepts the top-up-interest call as an
//! 8-byte selector with no further argument payload, together with a
//! positional list of exactly eight accounts. The order, the signer bit and
//! the writable flags of that list are load-bearing: the program rejects
//! any deviation, including the removal of its own address from slot 0.

use vstd::prelude::*;
use crate::address::Address;
use crate::vault::VaultFields;
use crate::ata::{ata_of, ata_address};

verus! {

/// The 8-byte selector that identifies the top-up-interest entrypoint.
pub open spec fn topup_selector() -> Seq<u8> {
    seq![
        196u8, 215u8, 224u8, 233u8, 237u8, 212u8, 2u8, 56u8
    ]
}

/// The vaults program's address.
pub open spec fn vaults_program_id() -> Seq<u8> {
    seq![
        70u8, 51u8, 197u8, 135u8, 108u8, 188u8, 195u8, 114u8, 100u8, 161u8, 151u8, 198u8,
        111u8, 220u8, 111u8, 247u8, 51u8, 157u8, 205u8, 221u8, 114u8, 34u8, 113u8, 178u8,
        255u8, 1u8, 243u8, 170u8, 56u8, 163u8, 206u8, 14u8
    ]
}

/// The SPL token program's address.
pub open spec fn token_program_id() -> Seq<u8> {
    seq![
        6u8, 221u8, 246u8, 225u8, 215u8, 101u8, 161u8, 147u8, 217u8, 203u8, 225u8, 70u8,
        206u8, 235u8, 121u8, 172u8, 28u8, 180u8, 133u8, 237u8, 95u8, 91u8, 55u8, 145u8,
        58u8, 140u8, 245u8, 133u8, 126u8, 255u8, 0u8, 169u8
    ]
}

/// The system program's address: all zero bytes.
pub open spec fn system_program_id() -> Seq<u8> {
    Seq::new(32, |i: int| 0u8)
}

/// The vaults program's address, as a value.
pub fn vaults_program_address() -> (r: Address)
    ensures
        r@ == vaults_program_id(),
        r.wf(),
{
    let mut b: Vec<u8> = Vec::new();
    b.push(70);
    b.push(51);
    b.push(197);
    b.push(135);
    b.push(108);
    b.push(188);
    b.push(195);
    b.push(114);
    b.push(100);
    b.push(161);
    b.push(151);
    b.push(198);
    b.push(111);
    b.push(220);
    b.push(111);
    b.push(247);
    b.push(51);
    b.push(157);
    b.push(205);
    b.push(221);
    b.push(114);
    b.push(34);
    b.push(113);
    b.push(178);
    b.push(255);
    b.push(1);
    b.push(243);
    b.push(170);
    b.push(56);
    b.push(163);
    b.push(206);
    b.push(14);
    proof {
        assert(b@ =~= vaults_program_id());
    }
    Address::from_fixed(b)
}

/// The SPL token program's address, as a value.
pub fn token_program_address() -> (r: Address)
    ensures
        r@ == token_program_id(),
        r.wf(),
{
    let mut b: Vec<u8> = Vec::new();
    b.push(6);
    b.push(221);
    b.push(246);
    b.push(225);
    b.push(215);
    b.push(101);
    b.push(161);
    b.push(147);
    b.push(217);
    b.push(203);
    b.push(225);
    b.push(70);
    b.push(206);
    b.push(235);
    b.push(121);
    b.push(172);
    b.push(28);
    b.push(180);
    b.push(133);
    b.push(237);
    b.push(95);
    b.push(91);
    b.push(55);
    b.push(145);
    b.push(58);
    b.push(140);
    b.push(245);
    b.push(133);
    b.push(126);
    b.push(255);
    b.push(0);
    b.push(169);
    proof {
        assert(b@ =~= token_program_id());
    }
    Address::from_fixed(b)
}

/// The system program's address, as a value.
pub fn system_program_address() -> (r: Address)
    ensures
        r@ == system_program_id(),
        r.wf(),
{
    let mut b: Vec<u8> = Vec::new();
    let mut i: usize = 0;
    while i < 32
        invariant
            i <= 32,
            b@.len() == i,
            forall|j: int| 0 <= j < i ==> b@[j] == 0u8,
        decreases 32 - i,
    {
        b.push(0);
        i += 1;
    }
    proof {
        assert(b@ =~= system_program_id());
    }
    Address::from_fixed(b)
}

/// One account in an instruction's positional account list.
pub struct AccountEntry {
    /// The account's address.
    pub address: Address,
    /// Whether the account must sign the transaction.
    pub is_signer: bool,
    /// Whether the program may write to the account.
    pub is_writable: bool,
}

/// A program instruction: the target program, the selector together with
/// the argument payload, and the positional account list.
pub struct Instruction {
    /// The program the instruction targets.
    pub program: Address,
    /// The instruction bytes: the selector, then any argument payload.
    pub data: Vec<u8>,
    /// The accounts the program touches, in the program's fixed order.
    pub accounts: Vec<AccountEntry>,
}

/// An entry carries this address and exactly these flags.
pub open spec fn entry_is(e: AccountEntry, address: Seq<u8>, is_signer: bool, is_writable: bool) -> bool {
    &&& e.address@ == address
    &&& e.is_signer == is_signer
    &&& e.is_writable == is_writable
}

/// The exact shape the on-chain program expects of a top-up-interest
/// instruction: the selector with no further payload, and the eight
/// accounts in their fixed order — the program's own address (writable),
/// the payer (the sole signer, writable), the token mint (read-only), the
/// vault (writable), the payer's token account (writable), the vault's
/// token account (writable), then the SPL token and system programs
/// (read-only).
pub open spec fn is_topup_instruction(
    ix: Instruction,
    payer: Seq<u8>,
    vault: Seq<u8>,
    token: Seq<u8>,
    token_vault_ac: Seq<u8>,
    payer_token_ac: Seq<u8>,
) -> bool {
    &&& ix.program@ == vaults_program_id()
    &&& ix.data@ == topup_selector()
    &&& ix.accounts@.len() == 8
    &&& entry_is(ix.accounts@[0], vaults_program_id(), false, true)
    &&& entry_is(ix.accounts@[1], payer, true, true)
    &&& entry_is(ix.accounts@[2], token, false, false)
    &&& entry_is(ix.accounts@[3], vault, false, true)
    &&& entry_is(ix.accounts@[4], payer_token_ac, false, true)
    &&& entry_is(ix.accounts@[5], token_vault_ac, false, true)
    &&& entry_is(ix.accounts@[6], token_program_id(), false, false)
    &&& entry_is(ix.accounts@[7], system_program_id(), false, false)
}

/// Builds the top-up-interest instruction from the five addresses it
/// mentions. Total: it cannot fail on well-formed inputs, and the result
/// has the exact selector, order and flags the program demands.
pub fn build_topup_instruction(
    payer: &Address,
    vault: &Address,
    token: &Address,
    token_vault_ac: &Address,
    payer_token_ac: &Address,
) -> (ix: Instruction)
    ensures
        is_topup_instruction(ix, payer@, vault@, token@, token_vault_ac@, payer_token_ac@),
{
    let mut data: Vec<u8> = Vec::new();
    data.push(196);
    data.push(215);
    data.push(224);
    data.push(233);
    data.push(237);
    data.push(212);
    data.push(2);
    data.push(56);
    proof {
        assert(data@ =~= topup_selector());
    }
    let mut accounts: Vec<AccountEntry> = Vec::new();
    accounts.push(
        AccountEntry { address: vaults_program_address(), is_signer: false, is_writable: true },
    );
    accounts.push(AccountEntry { address: payer.clone(), is_signer: true, is_writable: true });
    accounts.push(AccountEntry { address: token.clone(), is_signer: false, is_writable: false });
    accounts.push(AccountEntry { address: vault.clone(), is_signer: false, is_writable: true });
    accounts.push(
        AccountEntry { address: payer_token_ac.clone(), is_signer: false, is_writable: true },
    );
    accounts.push(
        AccountEntry { address: token_vault_ac.clone(), is_signer: false, is_writable: true },
    );
    accounts.push(
        AccountEntry { address: token_program_address(), is_signer: false, is_writable: false },
    );
    accounts.push(
        AccountEntry { address: system_program_address(), is_signer: false, is_writable: false },
    );
    Instruction { program: vaults_program_address(), data, accounts }
}

/// Builds the top-up-interest instruction for a payer and a vault straight
/// from the vault's decoded fields, deriving the payer's canonical token
/// account for the vault's interest token on the way.
pub fn build_topup_for_vault(payer: &Address, vault: &Address, fields: &VaultFields) -> (ix:
    Instruction)
    requires
        payer.wf(),
        fields.wf(),
    ensures
        is_topup_instruction(
            ix,
            payer@,
            vault@,
            fields.token@,
            fields.token_vault_ac@,
            ata_of(payer@, fields.token@),
        ),
{
    let payer_token_ac = ata_address(payer, &fields.token);
    build_topup_instruction(payer, vault, &fields.token, &fields.token_vault_ac, &payer_token_ac)
}

/// In a well-shaped top-up instruction the payer at slot 1 is the one and
/// only signer, and exactly the slots of the program, the payer, the vault
/// and the two token accounts are writable.
pub proof fn lemma_topup_flags(
    ix: Instruction,
    payer: Seq<u8>,
    vault: Seq<u8>,
    token: Seq<u8>,
    token_vault_ac: Seq<u8>,
    payer_token_ac: Seq<u8>,
)
    requires
        is_topup_instruction(ix, payer, vault, token, token_vault_ac, payer_token_ac),
    ensures
        ix.accounts@[1].is_signer,
        forall|i: int| 0 <= i < ix.accounts@.len() && i != 1 ==> !ix.accounts@[i].is_signer,
        forall|i: int|
            0 <= i < ix.accounts@.len() ==> (ix.accounts@[i].is_writable <==> (i != 2 && i != 6
                && i != 7)),
{
}

} // verus!
