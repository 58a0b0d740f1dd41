use wallet_core::block0::{parse_settings, Discrimination};
use wallet_core::errors::{ErrorKind, WalletError};
use wallet_core::vote::{build_proposal, build_vote_plan, PayloadType, Proposal, VoteOptions, VotePlan};
use wallet_core::wallet::Wallet;

// A 15-word phrase encoding the entropy bytes 1..=20 with its correct
// checksum, and a 24-word phrase encoding the bytes 100..=131.
const M15: &str = "absurd avoid scissors anxiety gather lottery category door army half long cage bachelor another fatal";
const M24: &str = "good clinic oil speak note cup random punch hunt logic frame tragic elder robot target august kidney swim butter woman way dolphin anxiety ladder";
// M15 with its last word replaced, which breaks the checksum.
const M15_BAD_CHECKSUM: &str = "absurd avoid scissors anxiety gather lottery category door army half long cage bachelor another father";

fn blake2b256(input: &[u8]) -> Vec<u8> {
    let mut out = [0u8; 32];
    let ctx = cryptoxide::hashing::blake2b::Blake2b::<256>::new().update(input);
    ctx.finalize_at(&mut out);
    out.to_vec()
}

/// Build a genesis block in the wallet's format: version 1, test
/// discrimination, the given fee parameters, then the outputs and accounts.
fn build_block0(
    fee_constant: u64,
    fee_coefficient: u64,
    fee_certificate: u64,
    utxos: &[(&[u8], u64)],
    accounts: &[(&[u8], u64)],
) -> Vec<u8> {
    let mut b = Vec::new();
    b.extend_from_slice(&1u16.to_le_bytes());
    b.push(1u8); // test discrimination
    b.extend_from_slice(&fee_constant.to_le_bytes());
    b.extend_from_slice(&fee_coefficient.to_le_bytes());
    b.extend_from_slice(&fee_certificate.to_le_bytes());
    b.extend_from_slice(&(utxos.len() as u32).to_le_bytes());
    for (addr, value) in utxos {
        assert_eq!(addr.len(), 32);
        b.extend_from_slice(addr);
        b.extend_from_slice(&value.to_le_bytes());
    }
    b.extend_from_slice(&(accounts.len() as u32).to_le_bytes());
    for (addr, value) in accounts {
        assert_eq!(addr.len(), 32);
        b.extend_from_slice(addr);
        b.extend_from_slice(&value.to_le_bytes());
    }
    b
}

#[test]
fn recover_valid_15_words() {
    let wallet = Wallet::recover(M15, &[]).expect("a valid 15-word mnemonic must recover");
    assert_eq!(wallet.id().len(), 32);
}

#[test]
fn recover_valid_24_words() {
    let wallet = Wallet::recover(M24, &[]).expect("a valid 24-word mnemonic must recover");
    assert_eq!(wallet.id().len(), 32);
}

#[test]
fn recover_rejects_bad_checksum() {
    assert_eq!(
        Wallet::recover(M15_BAD_CHECKSUM, &[]).err(),
        Some(WalletError::InvalidMnemonic)
    );
}

#[test]
fn recover_rejects_wrong_word_count() {
    let thirteen = "absurd avoid scissors anxiety gather lottery category door army half long cage bachelor";
    assert_eq!(
        Wallet::recover(thirteen, &[]).err(),
        Some(WalletError::InvalidMnemonic)
    );
}

#[test]
fn recover_rejects_unknown_word() {
    let unknown = "absurd avoid scissors anxiety gather lottery category door army half long cage bachelor another zzzzzz";
    assert_eq!(
        Wallet::recover(unknown, &[]).err(),
        Some(WalletError::InvalidMnemonic)
    );
}

#[test]
fn recover_honors_passphrase() {
    let plain = Wallet::recover(M15, &[]).unwrap();
    let with_pass = Wallet::recover(M15, b"trezor").unwrap();
    assert_ne!(plain.account_public_key(), with_pass.account_public_key());
    assert_ne!(plain.id(), with_pass.id());
}

#[test]
fn wallet_id_golden_value() {
    // The identifier of the M15 wallet: PBKDF2-HMAC-SHA512 of the entropy,
    // the Ed25519 public key of that seed, then its BLAKE2b digest,
    // computed with an independent implementation.
    let expected: [u8; 32] = [
        185, 114, 189, 112, 212, 211, 118, 118, 210, 207, 197, 215, 18, 18, 68, 113, 101, 33,
        232, 79, 113, 74, 235, 50, 217, 14, 44, 45, 247, 23, 236, 42,
    ];
    let wallet = Wallet::recover(M15, &[]).unwrap();
    assert_eq!(wallet.id(), expected.to_vec());
}

#[test]
fn wallet_id_idempotent() {
    let wallet = Wallet::recover(M15, &[]).unwrap();
    assert_eq!(wallet.id(), wallet.id());
}

#[test]
fn wallet_id_differs_from_public_key() {
    let wallet = Wallet::recover(M15, &[]).unwrap();
    assert_ne!(wallet.id(), wallet.account_public_key());
}

#[test]
fn parse_settings_reads_fields() {
    let block0 = build_block0(7, 3, 11, &[], &[]);
    let settings = parse_settings(&block0).unwrap();
    assert_eq!(settings.discrimination, Discrimination::Test);
    assert_eq!(settings.fee_constant, 7);
    assert_eq!(settings.fee_coefficient, 3);
    assert_eq!(settings.fee_certificate, 11);
    assert_eq!(settings.block0_hash, blake2b256(&block0));
}

#[test]
fn parse_settings_rejects_truncated() {
    let block0 = build_block0(7, 3, 11, &[], &[]);
    assert_eq!(
        parse_settings(&block0[..20]).err(),
        Some(WalletError::BlockDecode)
    );
}

#[test]
fn parse_settings_rejects_wrong_version() {
    let mut block0 = build_block0(7, 3, 11, &[], &[]);
    block0[0] = 2;
    assert_eq!(parse_settings(&block0).err(), Some(WalletError::BlockDecode));
}

#[test]
fn parse_settings_rejects_bad_discrimination() {
    let mut block0 = build_block0(7, 3, 11, &[], &[]);
    block0[2] = 9;
    assert_eq!(parse_settings(&block0).err(), Some(WalletError::BlockDecode));
}

#[test]
fn retrieve_funds_rejects_inconsistent_length() {
    let mut block0 = build_block0(7, 3, 11, &[], &[]);
    block0.push(0);
    let mut wallet = Wallet::recover(M15, &[]).unwrap();
    assert_eq!(
        wallet.retrieve_funds(&block0).err(),
        Some(WalletError::BlockDecode)
    );
}

#[test]
fn scan_and_convert_round_trip() {
    // Three outputs of 1000 to the wallet, all above the dust bound of 10:
    // one transaction moving 3000 minus the fee, nothing ignored.
    let mut wallet = Wallet::recover(M15, &[]).unwrap();
    let pk = wallet.account_public_key();
    let block0 = build_block0(
        5,
        10,
        0,
        &[(&pk, 1000), (&pk, 1000), (&pk, 1000)],
        &[],
    );
    let settings = wallet.retrieve_funds(&block0).unwrap();
    assert_eq!(wallet.total_value(), 3000);

    let conversion = wallet.convert(&settings);
    assert_eq!(conversion.transactions_size(), 1);
    assert_eq!(conversion.ignored_count(), 0);
    assert_eq!(conversion.ignored_value(), 0);

    let tx = conversion.transactions_get(0).unwrap();
    // layout: tag, 32-byte hash, count, 3 inputs of 12 bytes, 32-byte
    // destination, 8-byte value, 64-byte signature
    assert_eq!(tx.len(), 1 + 32 + 1 + 3 * 12 + 32 + 8 + 64);
    assert_eq!(tx[0], 1);
    assert_eq!(&tx[1..33], blake2b256(&block0).as_slice());
    assert_eq!(tx[33], 3);
    // fee = 5 + 10 * (3 inputs + 1 output) = 45
    let value_off = 34 + 3 * 12 + 32;
    let moved = u64::from_le_bytes(tx[value_off..value_off + 8].try_into().unwrap());
    assert_eq!(moved, 3000 - 45);
    // the funds are retired after conversion
    assert_eq!(wallet.total_value(), 0);
}

#[test]
fn dust_boundary_is_inclusive() {
    // With a coefficient of 10, a 10-valued output is dust and an
    // 11-valued one is not.
    let mut wallet = Wallet::recover(M15, &[]).unwrap();
    let pk = wallet.account_public_key();
    let block0 = build_block0(0, 10, 0, &[(&pk, 1000), (&pk, 10), (&pk, 11)], &[]);
    let settings = wallet.retrieve_funds(&block0).unwrap();
    let conversion = wallet.convert(&settings);
    assert_eq!(conversion.transactions_size(), 1);
    assert_eq!(conversion.ignored_count(), 1);
    assert_eq!(conversion.ignored_value(), 10);
    let tx = conversion.transactions_get(0).unwrap();
    // both the 1000 and the 11 entry are spent
    assert_eq!(tx[33], 2);
}

#[test]
fn scan_without_matches_is_empty() {
    let mut wallet = Wallet::recover(M15, &[]).unwrap();
    let stranger = [9u8; 32];
    let block0 = build_block0(5, 10, 0, &[(&stranger, 1000)], &[(&stranger, 500)]);
    let settings = wallet.retrieve_funds(&block0).unwrap();
    assert_eq!(wallet.total_value(), 0);
    let conversion = wallet.convert(&settings);
    assert_eq!(conversion.transactions_size(), 0);
    assert_eq!(conversion.ignored_count(), 0);
    assert_eq!(conversion.ignored_value(), 0);
}

#[test]
fn scan_discovers_account_balance() {
    let mut wallet = Wallet::recover(M15, &[]).unwrap();
    let pk = wallet.account_public_key();
    let block0 = build_block0(5, 10, 0, &[], &[(&pk, 700)]);
    wallet.retrieve_funds(&block0).unwrap();
    assert_eq!(wallet.total_value(), 700);
}

#[test]
fn scan_matches_legacy_scheme_key() {
    // The Ed25519 public key of the BLAKE2b seed of the M15 entropy,
    // computed with an independent implementation: an output held by the
    // legacy candidate key is discovered too.
    let legacy_pk: [u8; 32] = [
        66, 126, 6, 71, 170, 83, 51, 80, 18, 158, 189, 222, 211, 122, 216, 152, 31, 231, 19, 17,
        19, 1, 109, 152, 208, 167, 236, 223, 121, 147, 24, 205,
    ];
    let mut wallet = Wallet::recover(M15, &[]).unwrap();
    let block0 = build_block0(5, 10, 0, &[(&legacy_pk, 300)], &[]);
    wallet.retrieve_funds(&block0).unwrap();
    assert_eq!(wallet.total_value(), 300);
}

#[test]
fn set_state_overwrites() {
    let mut wallet = Wallet::recover(M15, &[]).unwrap();
    wallet.set_state(1000, 5);
    assert_eq!(wallet.total_value(), 1000);
    wallet.set_state(0, 6);
    assert_eq!(wallet.total_value(), 0);
}

#[test]
fn proposal_rejects_zero_choices() {
    assert_eq!(
        VoteOptions::new_length(0).err(),
        Some(WalletError::InvalidChoiceCount)
    );
}

#[test]
fn proposal_rejects_too_many_choices() {
    assert_eq!(
        VoteOptions::new_length(17).err(),
        Some(WalletError::InvalidChoiceCount)
    );
}

#[test]
fn proposal_accepts_bounds() {
    assert_eq!(VoteOptions::new_length(1).unwrap().num_choices, 1);
    assert_eq!(VoteOptions::new_length(16).unwrap().num_choices, 16);
}

#[test]
fn payload_type_bytes() {
    assert_eq!(PayloadType::from_byte(1).unwrap(), PayloadType::Public);
    assert_eq!(PayloadType::from_byte(2).unwrap(), PayloadType::Private);
    assert_eq!(
        PayloadType::from_byte(0).err(),
        Some(WalletError::InvalidPayloadType)
    );
    assert_eq!(
        PayloadType::from_byte(3).err(),
        Some(WalletError::InvalidPayloadType)
    );
}

#[test]
fn build_vote_plan_validates_parts() {
    let plan = build_vote_plan(vec![7u8; 32], 1).unwrap();
    assert_eq!(plan.payload_type, PayloadType::Public);
    assert_eq!(plan.id, vec![7u8; 32]);
    assert_eq!(
        build_vote_plan(vec![7u8; 32], 0).err(),
        Some(WalletError::InvalidPayloadType)
    );
    assert_eq!(
        build_vote_plan(vec![7u8; 8], 1).err(),
        Some(WalletError::InvalidVotePlanId)
    );
}

#[test]
fn build_proposal_validates_count() {
    let proposal = build_proposal(4, 3).unwrap();
    assert_eq!(proposal.index, 4);
    assert_eq!(proposal.options.num_choices, 3);
    assert_eq!(build_proposal(4, 0).err(), Some(WalletError::InvalidChoiceCount));
    assert_eq!(build_proposal(4, 17).err(), Some(WalletError::InvalidChoiceCount));
}

#[test]
fn vote_plan_rejects_short_id() {
    assert_eq!(
        VotePlan::new(vec![1, 2, 3], PayloadType::Public).err(),
        Some(WalletError::InvalidVotePlanId)
    );
}

#[test]
fn vote_rejects_out_of_range_choice() {
    let mut wallet = Wallet::recover(M15, &[]).unwrap();
    let block0 = build_block0(5, 10, 7, &[], &[]);
    let settings = wallet.retrieve_funds(&block0).unwrap();
    let plan = VotePlan::new(vec![42u8; 32], PayloadType::Public).unwrap();
    let proposal = Proposal::new(2, VoteOptions::new_length(3).unwrap());
    assert_eq!(
        wallet.vote(&settings, &plan, &proposal, 3).err(),
        Some(WalletError::ChoiceOutOfRange)
    );
    assert_eq!(
        wallet.vote(&settings, &plan, &proposal, 9).err(),
        Some(WalletError::ChoiceOutOfRange)
    );
}

#[test]
fn vote_encodes_plan_proposal_and_choice() {
    let mut wallet = Wallet::recover(M15, &[]).unwrap();
    let block0 = build_block0(5, 10, 7, &[], &[]);
    let settings = wallet.retrieve_funds(&block0).unwrap();
    wallet.set_state(500, 9);
    let plan = VotePlan::new(vec![42u8; 32], PayloadType::Private).unwrap();
    let proposal = Proposal::new(2, VoteOptions::new_length(3).unwrap());
    let tx = wallet.vote(&settings, &plan, &proposal, 1).unwrap();
    // layout: tag, 32-byte hash, discrimination, 32-byte plan id, payload
    // type, proposal index, choice, 32-byte account key, 4-byte counter,
    // 8-byte fee, 64-byte signature
    assert_eq!(tx.len(), 1 + 32 + 1 + 32 + 1 + 1 + 1 + 32 + 4 + 8 + 64);
    assert_eq!(tx[0], 2);
    assert_eq!(&tx[1..33], blake2b256(&block0).as_slice());
    assert_eq!(tx[33], 1); // test discrimination
    assert_eq!(&tx[34..66], [42u8; 32].as_slice());
    assert_eq!(tx[66], 2); // private payload
    assert_eq!(tx[67], 2); // proposal index
    assert_eq!(tx[68], 1); // choice
    assert_eq!(&tx[69..101], wallet.account_public_key().as_slice());
    assert_eq!(u32::from_le_bytes(tx[101..105].try_into().unwrap()), 9);
    // fee = 5 + 10 * 1 input + 7 for the certificate = 22
    assert_eq!(u64::from_le_bytes(tx[105..113].try_into().unwrap()), 22);
    // the signature depends on the whole body: it is not a copy of it
    assert_ne!(&tx[113..177], &tx[0..64]);
    // voting is deterministic under a fixed counter and does not advance it
    let again = wallet.vote(&settings, &plan, &proposal, 1).unwrap();
    assert_eq!(tx, again);
}

#[test]
fn conversion_get_rejects_out_of_bound() {
    let mut wallet = Wallet::recover(M15, &[]).unwrap();
    let block0 = build_block0(5, 10, 0, &[], &[]);
    let settings = wallet.retrieve_funds(&block0).unwrap();
    let conversion = wallet.convert(&settings);
    assert_eq!(
        conversion.transactions_get(0).err(),
        Some(WalletError::OutOfBound)
    );
}

#[test]
fn error_kinds_group_variants() {
    assert_eq!(WalletError::InvalidMnemonic.kind(), ErrorKind::InvalidInput);
    assert_eq!(WalletError::InvalidPayloadType.kind(), ErrorKind::InvalidInput);
    assert_eq!(WalletError::InvalidChoiceCount.kind(), ErrorKind::InvalidInput);
    assert_eq!(WalletError::ChoiceOutOfRange.kind(), ErrorKind::InvalidInput);
    assert_eq!(WalletError::BlockDecode.kind(), ErrorKind::BlockDecode);
    assert_eq!(WalletError::Recovery.kind(), ErrorKind::Recovery);
    assert_eq!(WalletError::OutOfBound.kind(), ErrorKind::OutOfBound);
}

#[test]
fn convert_splits_large_fund_lists_into_batches() {
    // 256 outputs: one transaction takes at most 255 inputs, so a second
    // transaction carries the rest.
    let mut wallet = Wallet::recover(M15, &[]).unwrap();
    let pk = wallet.account_public_key();
    let utxos: Vec<(&[u8], u64)> = (0..256).map(|_| (pk.as_slice(), 100u64)).collect();
    let block0 = build_block0(0, 10, 0, &utxos, &[]);
    let settings = wallet.retrieve_funds(&block0).unwrap();
    assert_eq!(wallet.total_value(), 25600);
    let conversion = wallet.convert(&settings);
    assert_eq!(conversion.transactions_size(), 2);
    let first = conversion.transactions_get(0).unwrap();
    let second = conversion.transactions_get(1).unwrap();
    assert_eq!(first[33], 255);
    assert_eq!(second[33], 1);
    assert_eq!(conversion.ignored_count(), 0);
}

#[test]
fn convert_ignores_unprofitable_batch() {
    // A single above-dust output whose batch cannot cover the flat fee:
    // no transaction is built and the entry is reported as ignored.
    let mut wallet = Wallet::recover(M15, &[]).unwrap();
    let pk = wallet.account_public_key();
    let block0 = build_block0(1000, 10, 0, &[(&pk, 11)], &[]);
    let settings = wallet.retrieve_funds(&block0).unwrap();
    let conversion = wallet.convert(&settings);
    assert_eq!(conversion.transactions_size(), 0);
    assert_eq!(conversion.ignored_count(), 1);
    assert_eq!(conversion.ignored_value(), 11);
}
