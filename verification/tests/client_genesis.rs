use solana_program::instruction::{AccountMeta, Instruction as RuntimeInstruction};
use solana_program::pubkey::Pubkey;
use spl_faucet::address::Address;
use spl_faucet::client::{
    finish_airdrop_instruction, keypair_bytes, start_airdrop_instruction, start_airdrop_transaction,
    take_airdrop_instruction, StartRequest,
};
use spl_faucet::error::ProgramError;
use spl_faucet::genesis;
use spl_faucet::processor::{rent_is_exempt, AccountView};

fn pk(bytes: [u8; 32]) -> Pubkey {
    Pubkey::new_from_array(bytes)
}

#[test]
fn parse_base58_address() {
    let key = pk([42u8; 32]);
    assert_eq!(Address::parse(&key.to_string()), Some(Address([42u8; 32])));
    assert_eq!(Address::parse(&spl_token::id().to_string()), Some(Address(spl_token::id().to_bytes())));
    assert_eq!(Address::parse("not a key"), None);
    assert_eq!(Address::parse(&"1".repeat(45)), None);
}

#[test]
fn rent_exemption_follows_runtime() {
    let rent = solana_program::rent::Rent::default();
    let min = rent.minimum_balance(80);
    assert_eq!(rent_is_exempt(&rent, min, 80), Ok(true));
    assert_eq!(rent_is_exempt(&rent, min - 1, 80), Ok(false));
    let huge = solana_program::rent::Rent { lamports_per_byte_year: u64::MAX, exemption_threshold: 1.0, burn_percent: 0 };
    assert_eq!(rent_is_exempt(&huge, 5, 80), Err(ProgramError::InvalidArgument));
}

#[test]
fn client_faucet_instructions() {
    let program = Address([9u8; 32]);
    let holder = Address([1u8; 32]);
    let deposit = Address([2u8; 32]);
    let airdrop = Address([3u8; 32]);
    let start = start_airdrop_instruction(&program, &holder, &deposit, &airdrop);
    assert_eq!(start, RuntimeInstruction {
        program_id: pk(program.0),
        accounts: vec![
            AccountMeta::new_readonly(pk(holder.0), true),
            AccountMeta::new_readonly(spl_token::id(), false),
            AccountMeta::new_readonly(solana_program::sysvar::rent::id(), false),
            AccountMeta::new(pk(deposit.0), false),
            AccountMeta::new(pk(airdrop.0), false),
        ],
        data: vec![0, 0, 0, 0],
    });
    let (pda, _) = Pubkey::find_program_address(&[b"stamm"], &pk(program.0));
    let receiver = Address([4u8; 32]);
    let finish = finish_airdrop_instruction(&program, &holder, &deposit, &receiver, &airdrop).unwrap();
    assert_eq!(finish, RuntimeInstruction {
        program_id: pk(program.0),
        accounts: vec![
            AccountMeta::new_readonly(pk(holder.0), true),
            AccountMeta::new_readonly(spl_token::id(), false),
            AccountMeta::new_readonly(pda, false),
            AccountMeta::new(pk(deposit.0), false),
            AccountMeta::new(pk(receiver.0), false),
            AccountMeta::new(pk(airdrop.0), false),
        ],
        data: vec![1, 0, 0, 0],
    });
    let taker_token = Address([6u8; 32]);
    let take = take_airdrop_instruction(&program, &holder, &deposit, &airdrop, &taker_token, 258).unwrap();
    assert_eq!(take, RuntimeInstruction {
        program_id: pk(program.0),
        accounts: vec![
            AccountMeta::new_readonly(pk(holder.0), true),
            AccountMeta::new_readonly(spl_token::id(), false),
            AccountMeta::new_readonly(pda, false),
            AccountMeta::new(pk(deposit.0), false),
            AccountMeta::new(pk(airdrop.0), false),
            AccountMeta::new(pk(taker_token.0), false),
        ],
        data: vec![2, 0, 0, 0, 2, 1, 0, 0, 0, 0, 0, 0],
    });
}

fn request(program: Address) -> StartRequest {
    StartRequest {
        program,
        payer: Address([1u8; 32]),
        source: Address([4u8; 32]),
        mint: Address([5u8; 32]),
        deposit: Address([2u8; 32]),
        airdrop: Address([3u8; 32]),
        amount: 50,
        deposit_space: 165,
        deposit_rent: 1000,
        airdrop_space: 80,
        airdrop_rent: 900,
    }
}

#[test]
fn client_start_transaction() {
    assert_eq!(start_airdrop_transaction(&request(Address([9u8; 32]))).err(), Some(ProgramError::IncorrectProgramId));
    let token = Address(spl_token::id().to_bytes());
    let ixs = start_airdrop_transaction(&request(token)).unwrap();
    assert_eq!(ixs.len(), 5);
    assert_eq!(
        ixs[0],
        solana_program::system_instruction::create_account(&pk([1u8; 32]), &pk([2u8; 32]), 1000, 165, &spl_token::id())
    );
    assert_eq!(
        ixs[1],
        spl_token::instruction::initialize_account(&spl_token::id(), &pk([2u8; 32]), &pk([5u8; 32]), &pk([1u8; 32])).unwrap()
    );
    assert_eq!(
        ixs[2],
        spl_token::instruction::transfer(&spl_token::id(), &pk([4u8; 32]), &pk([2u8; 32]), &pk([1u8; 32]), &[], 50).unwrap()
    );
    assert_eq!(
        ixs[3],
        solana_program::system_instruction::create_account(&pk([1u8; 32]), &pk([3u8; 32]), 900, 80, &spl_token::id())
    );
    assert_eq!(ixs[4].data, vec![0, 0, 0, 0]);
}

const PROGRAM: [u8; 32] = [7u8; 32];

fn genesis_accounts() -> Vec<AccountView> {
    let view = |key: [u8; 32], is_signer: bool| AccountView { key: Address(key), is_signer, lamports: 0, data: vec![] };
    vec![
        view([1u8; 32], true),
        view(spl_token::id().to_bytes(), false),
        view([21u8; 32], false),
        view([22u8; 32], false),
        view([23u8; 32], false),
    ]
}

fn mint_names() -> (String, String, String) {
    (pk([21u8; 32]).to_string(), pk([22u8; 32]).to_string(), pk([23u8; 32]).to_string())
}

#[test]
fn genesis_hands_over_the_configured_mints() {
    let (cash, bond, share) = mint_names();
    let program = Address(PROGRAM);
    let (pda, _) = Pubkey::find_program_address(&[b"stamm"], &pk(PROGRAM));
    let calls = genesis::genesis(&program, &genesis_accounts(), &cash, &bond, &share).unwrap();
    assert_eq!(calls.len(), 3);
    for (i, call) in calls.iter().enumerate() {
        let mint = pk([21u8 + i as u8; 32]);
        let expected = spl_token::instruction::set_authority(
            &spl_token::id(),
            &mint,
            Some(&pda),
            spl_token::instruction::AuthorityType::MintTokens,
            &pk([1u8; 32]),
            &[&pk([1u8; 32])],
        )
        .unwrap();
        assert_eq!(call.instruction, expected);
        assert_eq!(call.accounts, vec![i + 2, 0, 1]);
        assert_eq!(call.signer_bump, None);
    }
    assert_eq!(genesis::process(&program, &genesis_accounts(), &[0, 0, 0, 0], &cash, &bond, &share).map(|c| c.len()), Ok(3));
    assert_eq!(
        genesis::process(&program, &genesis_accounts(), &[1, 0, 0, 0], &cash, &bond, &share).err(),
        Some(ProgramError::Custom(0))
    );
}

#[test]
fn genesis_checks() {
    let (cash, bond, share) = mint_names();
    let program = Address(PROGRAM);
    let mut accounts = genesis_accounts();
    accounts[0].is_signer = false;
    assert_eq!(genesis::genesis(&program, &accounts, &cash, &bond, &share).err(), Some(ProgramError::MissingRequiredSignature));
    assert_eq!(
        genesis::genesis(&program, &genesis_accounts(), &bond, &bond, &share).err(),
        Some(ProgramError::InvalidInstructionData)
    );
    assert_eq!(
        genesis::genesis(&program, &genesis_accounts(), &cash, &bond, "???").err(),
        Some(ProgramError::InvalidInstructionData)
    );
    let mut accounts = genesis_accounts();
    accounts[1].key = Address([6u8; 32]);
    assert_eq!(genesis::genesis(&program, &accounts, &cash, &bond, &share).err(), Some(ProgramError::IncorrectProgramId));
    let mut accounts = genesis_accounts();
    accounts.truncate(4);
    assert_eq!(genesis::genesis(&program, &accounts, &cash, &bond, &share).err(), Some(ProgramError::NotEnoughAccountKeys));
}

#[test]
fn keypair_file_text() {
    assert_eq!(keypair_bytes(b"[1, 2, 255]"), Some(vec![1, 2, 255]));
    assert_eq!(keypair_bytes(b" [] \n"), Some(vec![]));
    assert_eq!(keypair_bytes(b"[256]"), None);
    assert_eq!(keypair_bytes(b"not json"), None);
}
