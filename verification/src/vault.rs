//! Decoding of on-chain vault records.
//!
//! A vault record starts with an 8-byte account type tag, which carries no
//! field data. Past the tag come the fields the payment loop consumes: the
//! mint address of the interest token, then the vault's own token account
//! for that mint, each 32 bytes in order.

use vstd::prelude::*;
use crate::address::Address;

verus! {

/// A vault record is decodable when it holds the tag and both addresses.
pub open spec fn vault_decodable(data: Seq<u8>) -> bool {
    data.len() >= 72
}

/// The interest token's mint address: the 32 bytes past the tag.
pub open spec fn vault_token(data: Seq<u8>) -> Seq<u8> {
    data.subrange(8, 40)
}

/// The vault's own token account: the 32 bytes after the mint.
pub open spec fn vault_token_account(data: Seq<u8>) -> Seq<u8> {
    data.subrange(40, 72)
}

/// The fields of a vault record that the payment loop consumes. Further
/// fields may follow on chain; they are not read here.
pub struct VaultFields {
    /// Mint address of the token the vault accrues interest in.
    pub token: Address,
    /// The vault's own token account for that mint.
    pub token_vault_ac: Address,
}

impl VaultFields {
    /// Both addresses are full 32-byte chain addresses.
    pub open spec fn wf(&self) -> bool {
        self.token.wf() && self.token_vault_ac.wf()
    }
}

/// Why a vault record could not be decoded.
#[derive(Debug)]
pub enum DecodeError {
    /// The record is shorter than the tag plus the two addresses.
    TooShort,
}

impl DecodeError {
    /// A human-readable description of the error.
    pub fn describe(&self) -> (r: String)
        ensures
            r@ == "vault record too short"@,
    {
        "vault record too short".to_owned()
    }
}

/// Copies `data[from..to]` into a fresh vector.
fn copy_range(data: &Vec<u8>, from: usize, to: usize) -> (r: Vec<u8>)
    requires
        from <= to <= data@.len(),
    ensures
        r@ == data@.subrange(from as int, to as int),
{
    let mut out: Vec<u8> = Vec::new();
    let mut i: usize = from;
    while i < to
        invariant
            from <= i <= to <= data@.len(),
            out@.len() == i - from,
            forall|j: int| 0 <= j < out@.len() ==> out@[j] == data@[from as int + j],
        decreases to - i,
    {
        out.push(data[i]);
        i += 1;
    }
    proof {
        assert(out@ =~= data@.subrange(from as int, to as int));
    }
    out
}

/// Decodes a raw vault record: skips the 8-byte tag and reads the token
/// mint and the vault token account from their fixed offsets. Succeeds
/// exactly when the record is long enough; no further validation is done —
/// the on-chain program is the judge of the values themselves.
pub fn decode_vault(data: &Vec<u8>) -> (r: Result<VaultFields, DecodeError>)
    ensures
        r is Ok <==> vault_decodable(data@),
        r matches Ok(v) ==> {
            &&& v.wf()
            &&& v.token@ == vault_token(data@)
            &&& v.token_vault_ac@ == vault_token_account(data@)
        },
        r is Err ==> r matches Err(DecodeError::TooShort),
{
    if data.len() < 72 {
        return Err(DecodeError::TooShort);
    }
    let token = Address::from_fixed(copy_range(data, 8, 40));
    let token_vault_ac = Address::from_fixed(copy_range(data, 40, 72));
    Ok(VaultFields { token, token_vault_ac })
}

/// Re-encodes the consumed fields in the record layout: the token mint
/// followed by the vault token account, exactly as they sit past the tag.
pub fn encode_vault_fields(v: &VaultFields) -> (r: Vec<u8>)
    ensures
        r@ == v.token@ + v.token_vault_ac@,
{
    let token_bytes = v.token.as_bytes();
    let mut out = copy_range(token_bytes, 0, token_bytes.len());
    let tv = v.token_vault_ac.as_bytes();
    let mut i: usize = 0;
    while i < tv.len()
        invariant
            i <= tv@.len(),
            tv@ == v.token_vault_ac@,
            out@.len() == v.token@.len() + i,
            forall|j: int| 0 <= j < v.token@.len() ==> out@[j] == v.token@[j],
            forall|j: int| 0 <= j < i ==> out@[v.token@.len() + j] == tv@[j],
        decreases tv@.len() - i,
    {
        out.push(tv[i]);
        i += 1;
    }
    proof {
        assert(out@ =~= v.token@ + v.token_vault_ac@);
    }
    out
}

/// Decoding a vault record and re-encoding the consumed fields reproduces,
/// byte for byte, the record's bytes past the 8-byte tag.
pub proof fn lemma_vault_round_trip(data: Seq<u8>)
    requires
        vault_decodable(data),
    ensures
        vault_token(data) + vault_token_account(data) == data.subrange(8, 72),
{
    assert(vault_token(data) + vault_token_account(data) =~= data.subrange(8, 72));
}

} // verus!
