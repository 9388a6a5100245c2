use english_auction::accounts::{check_bid_accounts, escrow_address, metadata_address};
use english_auction::error::{AuctionError, MetaplexError};
use english_auction::governance::{Governance, GOVERNANCE_LEN};
use english_auction::transaction::{
    CustomSingleSignerTransaction, GovernanceAccountType, PackError, CUSTOM_SINGLE_SIGNER_LEN,
    MAX_INSTRUCTION_DATA,
};
use english_auction::vault::{ActivateVaultArgs, VaultInstruction};
use solana_program::pubkey::Pubkey;

#[test]
fn escrow_address_is_the_program_address_of_its_seeds() {
    let program = [7u8; 32];
    let auction = [8u8; 32];
    let bidder = [9u8; 32];
    let (key, bump) = escrow_address(&program, &auction, &bidder).unwrap();
    let (expected, expected_bump) = Pubkey::find_program_address(
        &[b"auction", &program, &auction, &bidder],
        &Pubkey::new_from_array(program),
    );
    assert_eq!(key, expected.to_bytes());
    assert_eq!(bump, expected_bump);
    assert_ne!(key, program);
    assert_eq!(escrow_address(&program, &auction, &bidder), Some((key, bump)));
}

#[test]
fn metadata_address_differs_from_escrow() {
    let program = [7u8; 32];
    let auction = [8u8; 32];
    let bidder = [9u8; 32];
    let (meta, _) = metadata_address(&program, &auction, &bidder).unwrap();
    let (escrow, _) = escrow_address(&program, &auction, &bidder).unwrap();
    let (expected, _) = Pubkey::find_program_address(
        &[b"auction", &program, &auction, &bidder, b"metadata"],
        &Pubkey::new_from_array(program),
    );
    assert_eq!(meta, expected.to_bytes());
    assert_ne!(meta, escrow);
}

#[test]
fn bid_accounts_must_match_their_derivation() {
    let program = [1u8; 32];
    let auction = [2u8; 32];
    let bidder = [3u8; 32];
    let (escrow, eb) = escrow_address(&program, &auction, &bidder).unwrap();
    let (meta, mb) = metadata_address(&program, &auction, &bidder).unwrap();
    let ok = check_bid_accounts(&program, &auction, &bidder, &escrow, &meta).unwrap();
    assert_eq!((ok.escrow_bump, ok.metadata_bump), (eb, mb));
    assert_eq!(
        check_bid_accounts(&program, &auction, &bidder, &meta, &escrow).err(),
        Some(AuctionError::ValidationError)
    );
    let other = [4u8; 32];
    assert_eq!(
        check_bid_accounts(&program, &auction, &other, &escrow, &meta).err(),
        Some(AuctionError::ValidationError)
    );
}

fn transaction() -> CustomSingleSignerTransaction {
    let mut instruction = [0u8; MAX_INSTRUCTION_DATA];
    for (i, b) in instruction.iter_mut().enumerate() {
        *b = (i % 251) as u8;
    }
    CustomSingleSignerTransaction {
        account_type: GovernanceAccountType::CustomSingleSignerTransaction,
        delay_slots: 0x0102_0304_0506_0708,
        instruction,
        instruction_end_index: 0x0a0b,
        executed: 1,
    }
}

#[test]
fn transaction_packs_little_endian_fields() {
    let mut buf = vec![0xeeu8; CUSTOM_SINGLE_SIGNER_LEN];
    CustomSingleSignerTransaction::pack(transaction(), &mut buf).unwrap();
    assert_eq!(buf[0], 5);
    assert_eq!(&buf[1..9], &[8, 7, 6, 5, 4, 3, 2, 1]);
    assert_eq!(buf[9], 0);
    assert_eq!(buf[10], 1);
    assert_eq!(buf[459], 1);
    assert_eq!(&buf[460..462], &[0x0b, 0x0a]);
    assert!(buf[462..].iter().all(|b| *b == 0xee));
}

#[test]
fn transaction_round_trips() {
    let t = transaction();
    let mut buf = vec![0u8; CUSTOM_SINGLE_SIGNER_LEN];
    CustomSingleSignerTransaction::pack(t, &mut buf).unwrap();
    let back = CustomSingleSignerTransaction::unpack(&buf).unwrap();
    assert!(back == t);
    assert_eq!(back.account_type, GovernanceAccountType::CustomSingleSignerTransaction);
    assert_eq!(back.instruction_end_index, t.instruction_end_index);
    assert_eq!(back.executed, 1);
}

#[test]
fn transaction_rejects_bad_buffers() {
    let mut small = vec![0u8; CUSTOM_SINGLE_SIGNER_LEN - 1];
    assert_eq!(CustomSingleSignerTransaction::pack(transaction(), &mut small), Err(PackError::InvalidAccountData));
    assert_eq!(CustomSingleSignerTransaction::unpack(&small).err(), Some(PackError::InvalidAccountData));
    let mut buf = vec![0u8; CUSTOM_SINGLE_SIGNER_LEN];
    assert_eq!(CustomSingleSignerTransaction::unpack(&buf).err(), Some(PackError::UninitializedAccount));
    assert!(CustomSingleSignerTransaction::unpack_unchecked(&buf).is_ok());
    buf[0] = 3;
    assert_eq!(CustomSingleSignerTransaction::unpack_unchecked(&buf).err(), Some(PackError::InvalidAccountData));
}

#[test]
fn transactions_compare_by_instruction_and_delay() {
    let a = transaction();
    let mut b = transaction();
    b.executed = 0;
    assert!(a == b);
    b.instruction[449] ^= 1;
    assert!(a != b);
    assert!(a.is_initialized());
    assert_eq!(CustomSingleSignerTransaction::get_packed_len(), 762);
}

fn governance(council: Option<[u8; 32]>) -> Governance {
    Governance {
        account_type: GovernanceAccountType::Governance,
        vote_threshold: 60,
        minimum_slot_waiting_period: 1000,
        governance_mint: [1; 32],
        council_mint: council,
        program: [3; 32],
        time_limit: 0xffff_0000_0000_0001,
        name: [b'g'; 32],
        proposal_count: 0x0403_0201,
    }
}

#[test]
fn governance_round_trips() {
    for council in [None, Some([2u8; 32])] {
        let g = governance(council);
        let mut buf = vec![0x55u8; GOVERNANCE_LEN];
        Governance::pack(g, &mut buf).unwrap();
        assert_eq!(buf[0], 1);
        assert_eq!(buf[1], 60);
        assert_eq!(buf[42], if council.is_some() { 1 } else { 0 });
        assert_eq!(&buf[147..151], &[1, 2, 3, 4]);
        assert!(buf[151..].iter().all(|b| *b == 0x55));
        let back = Governance::unpack(&buf).unwrap();
        assert_eq!(back.council_mint, council);
        assert_eq!(back.time_limit, g.time_limit);
        assert_eq!(back.proposal_count, g.proposal_count);
        assert_eq!(back.name, g.name);
        assert_eq!(back.program, g.program);
        assert_eq!(back.minimum_slot_waiting_period, 1000);
    }
}

#[test]
fn governance_rejects_bad_buffers() {
    let mut buf = vec![0u8; GOVERNANCE_LEN];
    Governance::pack(governance(None), &mut buf).unwrap();
    buf[42] = 2;
    assert_eq!(Governance::unpack(&buf).err(), Some(PackError::InvalidAccountData));
    buf[42] = 0;
    buf[0] = 0;
    assert_eq!(Governance::unpack(&buf).err(), Some(PackError::UninitializedAccount));
    buf[0] = 7;
    assert_eq!(Governance::unpack(&buf).err(), Some(PackError::InvalidAccountData));
    assert_eq!(Governance::unpack(&buf[1..]).err(), Some(PackError::InvalidAccountData));
    assert_eq!(Governance::get_packed_len(), 446);
}

#[test]
fn metaplex_error_codes_follow_declaration_order() {
    assert_eq!(MetaplexError::InstructionUnpackError.code(), 0);
    assert_eq!(MetaplexError::NumericalOverflowError.code(), 5);
    assert_eq!(MetaplexError::NotEnoughTokensToSupplyWinners.code(), 34);
    assert_eq!(MetaplexError::type_of(), "Metaplex Error");
}

#[test]
fn vault_instructions_carry_their_arguments() {
    let i = VaultInstruction::ActivateVault(ActivateVaultArgs { number_of_shares: 9 });
    assert_eq!(i, VaultInstruction::ActivateVault(ActivateVaultArgs { number_of_shares: 9 }));
    assert_ne!(i, VaultInstruction::CombineVault);
}
