use std::str::FromStr;

use vault_interest::address::Address;
use vault_interest::cadence::{
    interval_millis, outcome_line, plan_after_tick, send_policy, Commitment, TickOutcome,
};
use vault_interest::get_network;
use vault_interest::instruction::{
    build_topup_for_vault, build_topup_instruction, system_program_address,
    token_program_address, vaults_program_address,
};
use vault_interest::vault::{decode_vault, encode_vault_fields, DecodeError, VaultFields};

fn addr(fill: u8) -> Address {
    Address::new(vec![fill; 32]).expect("32 bytes make an address")
}

fn addr_bytes(a: &Address) -> Vec<u8> {
    a.as_bytes().clone()
}

#[test]
fn address_accepts_exactly_32_bytes() {
    assert!(Address::new(vec![7u8; 32]).is_some());
    assert!(Address::new(vec![7u8; 31]).is_none());
    assert!(Address::new(vec![7u8; 33]).is_none());
    assert!(Address::new(Vec::new()).is_none());
    let a = Address::new(vec![9u8; 32]).unwrap();
    assert_eq!(addr_bytes(&a), vec![9u8; 32]);
}

#[test]
fn program_addresses_match_their_base58_forms() {
    let vaults = solana_pubkey::Pubkey::from_str("5j3KuMK2u7KFtoEwiLTexUeooHq5NPQX96rYp5dhuze9")
        .unwrap();
    assert_eq!(addr_bytes(&vaults_program_address()), vaults.to_bytes().to_vec());
    let spl_token = solana_pubkey::Pubkey::from_str("TokenkegQfeZyiNwAJbNbGKPFXCWuBvf9Ss623VQ5DA")
        .unwrap();
    assert_eq!(addr_bytes(&token_program_address()), spl_token.to_bytes().to_vec());
    assert_eq!(addr_bytes(&system_program_address()), vec![0u8; 32]);
}

#[test]
fn decode_reads_the_fields_past_the_tag() {
    let mut data = vec![0xAAu8; 8];
    data.extend(vec![3u8; 32]);
    data.extend(vec![4u8; 32]);
    data.extend(vec![0x55u8; 128]);
    assert_eq!(data.len(), 200);
    let fields = decode_vault(&data).expect("long enough");
    assert_eq!(addr_bytes(&fields.token), vec![3u8; 32]);
    assert_eq!(addr_bytes(&fields.token_vault_ac), vec![4u8; 32]);
}

#[test]
fn decode_accepts_exactly_tag_plus_two_addresses() {
    let data = vec![1u8; 72];
    let fields = decode_vault(&data).expect("72 bytes suffice");
    assert_eq!(addr_bytes(&fields.token), vec![1u8; 32]);
}

#[test]
fn decode_rejects_a_short_record() {
    let data = vec![1u8; 71];
    assert!(matches!(decode_vault(&data), Err(DecodeError::TooShort)));
    let short = vec![1u8; 40];
    assert!(matches!(decode_vault(&short), Err(DecodeError::TooShort)));
    assert!(matches!(decode_vault(&Vec::new()), Err(DecodeError::TooShort)));
}

#[test]
fn decode_then_encode_reproduces_the_bytes_past_the_tag() {
    let mut data: Vec<u8> = (0u8..=199).take(200).collect();
    data.truncate(200);
    let fields = decode_vault(&data).unwrap();
    let encoded = encode_vault_fields(&fields);
    assert_eq!(encoded, data[8..72].to_vec());
}

#[test]
fn built_instruction_has_the_exact_account_list() {
    let payer = addr(1);
    let vault = addr(2);
    let token = addr(3);
    let token_vault_ac = addr(4);
    let payer_token_ac = addr(5);
    let ix = build_topup_instruction(&payer, &vault, &token, &token_vault_ac, &payer_token_ac);

    assert_eq!(addr_bytes(&ix.program), addr_bytes(&vaults_program_address()));
    assert_eq!(ix.data, vec![196u8, 215, 224, 233, 237, 212, 2, 56]);
    assert_eq!(ix.accounts.len(), 8);

    let expected: Vec<(Vec<u8>, bool, bool)> = vec![
        (addr_bytes(&vaults_program_address()), false, true),
        (addr_bytes(&payer), true, true),
        (addr_bytes(&token), false, false),
        (addr_bytes(&vault), false, true),
        (addr_bytes(&payer_token_ac), false, true),
        (addr_bytes(&token_vault_ac), false, true),
        (addr_bytes(&token_program_address()), false, false),
        (addr_bytes(&system_program_address()), false, false),
    ];
    for (i, (bytes, signer, writable)) in expected.iter().enumerate() {
        assert_eq!(&addr_bytes(&ix.accounts[i].address), bytes, "address of entry {}", i);
        assert_eq!(&ix.accounts[i].is_signer, signer, "signer bit of entry {}", i);
        assert_eq!(&ix.accounts[i].is_writable, writable, "writable bit of entry {}", i);
    }
    let signers: Vec<usize> =
        (0..8).filter(|&i| ix.accounts[i].is_signer).collect();
    assert_eq!(signers, vec![1]);
}

#[test]
fn derived_token_account_matches_the_canonical_derivation() {
    let mut record = vec![0u8; 8];
    record.extend(vec![3u8; 32]);
    record.extend(vec![4u8; 32]);
    record.extend(vec![0u8; 128]);
    let fields = decode_vault(&record).unwrap();
    let payer = addr(1);
    let vault = addr(2);
    let ix = build_topup_for_vault(&payer, &vault, &fields);

    let wallet = solana_pubkey::Pubkey::new_from_array([1u8; 32]);
    let mint = solana_pubkey::Pubkey::new_from_array([3u8; 32]);
    let canonical = spl_associated_token_account_client::address::get_associated_token_address(
        &wallet,
        &mint,
    );
    assert_eq!(addr_bytes(&ix.accounts[4].address), canonical.to_bytes().to_vec());
    assert_ne!(addr_bytes(&ix.accounts[4].address), addr_bytes(&payer));
    assert_ne!(addr_bytes(&ix.accounts[4].address), addr_bytes(&fields.token));
}

#[test]
fn aliases_resolve_to_the_public_endpoints() {
    for alias in ["devnet", "dev", "d"] {
        assert_eq!(get_network(alias), "https://api.devnet.solana.com");
    }
    for alias in ["mainnet", "main", "m", "mainnet-beta"] {
        assert_eq!(get_network(alias), "https://api.mainnet-beta.solana.com");
    }
    for alias in ["localnet", "localhost", "l"] {
        assert_eq!(get_network(alias), "http://localhost:8899");
    }
}

#[test]
fn an_unrecognized_url_passes_through_verbatim() {
    assert_eq!(get_network("http://my.node:8899"), "http://my.node:8899");
    assert_eq!(get_network(""), "");
    assert_eq!(get_network("Devnet"), "Devnet");
    assert_eq!(get_network("https://api.devnet.solana.com"), "https://api.devnet.solana.com");
}

#[test]
fn resolution_is_idempotent_on_concrete_inputs() {
    for s in ["devnet", "m", "l", "http://my.node:8899", "mainnet-beta", ""] {
        let once = get_network(s);
        assert_eq!(get_network(once), once);
    }
}

#[test]
fn the_interval_is_exactly_days_times_a_day_of_millis() {
    assert_eq!(interval_millis(1), 86_400_000);
    assert_eq!(interval_millis(30), 2_592_000_000);
    assert_eq!(interval_millis(0), 0);
    assert_eq!(interval_millis(u16::MAX), 65_535u64 * 86_400_000);
}

#[test]
fn outcome_lines_match_the_reporting_format() {
    let ok = TickOutcome::Submitted("5ks".to_string());
    assert_eq!(outcome_line(&ok), "Transaction sig: 5ks");
    let rejected = TickOutcome::SubmitFailed("blockhash expired".to_string());
    assert_eq!(outcome_line(&rejected), "Transaction failed. Error: blockhash expired");
    let down = TickOutcome::TransportFailed("connection refused".to_string());
    assert_eq!(outcome_line(&down), "Transport error: connection refused");
    let short = TickOutcome::DecodeFailed(DecodeError::TooShort.describe());
    assert_eq!(outcome_line(&short), "Decode error: vault record too short");
}

#[test]
fn every_outcome_leads_to_the_same_full_sleep() {
    let outcomes = vec![
        TickOutcome::Submitted("sig".to_string()),
        TickOutcome::TransportFailed("down".to_string()),
        TickOutcome::DecodeFailed("short".to_string()),
        TickOutcome::SubmitFailed("rejected".to_string()),
    ];
    for outcome in &outcomes {
        let plan = plan_after_tick(outcome, 1);
        assert_eq!(plan.sleep_millis, 86_400_000);
    }
    let immediate = plan_after_tick(&outcomes[0], 0);
    assert_eq!(immediate.sleep_millis, 0);
}

#[test]
fn the_send_policy_is_fixed() {
    let p = send_policy();
    assert!(matches!(p.commitment, Commitment::Processed));
    assert!(p.skip_preflight);
    assert!(p.preflight_commitment.is_none());
    assert!(p.max_retries.is_none());
    assert!(p.min_context_slot.is_none());
}

#[test]
fn encode_concatenates_the_two_addresses() {
    let fields = VaultFields { token: addr(7), token_vault_ac: addr(9) };
    let mut expected = vec![7u8; 32];
    expected.extend(vec![9u8; 32]);
    assert_eq!(encode_vault_fields(&fields), expected);
}
