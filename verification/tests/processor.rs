use solana_program::instruction::{AccountMeta, Instruction as RuntimeInstruction};
use solana_program::program_pack::Pack;
use solana_program::pubkey::Pubkey;
use solana_program::rent::Rent;
use spl_faucet::address::Address;
use spl_faucet::error::ProgramError;
use spl_faucet::instruction::Instruction;
use spl_faucet::processor::{
    complete_finish_airdrop, complete_plan, complete_start_airdrop, finish_airdrop, next_account, process,
    program_authority, start_airdrop, take_airdrop, unpack_token_account, AccountView, Plan,
    TokenAction,
};
use spl_faucet::runtime::AuthorityType;
use spl_faucet::state::{Airdrop, AIRDROP_LEN};
use spl_token::state::{Account as TokenAccount, AccountState};

const PROGRAM: [u8; 32] = [7u8; 32];
const HOLDER: [u8; 32] = [1u8; 32];
const DEPOSIT: [u8; 32] = [3u8; 32];
const AIRDROP: [u8; 32] = [4u8; 32];
const RECEIVER: [u8; 32] = [5u8; 32];
const TAKER: [u8; 32] = [6u8; 32];

fn pk(bytes: [u8; 32]) -> Pubkey {
    Pubkey::new_from_array(bytes)
}

fn authority() -> (Pubkey, u8) {
    Pubkey::find_program_address(&[b"stamm"], &pk(PROGRAM))
}

fn token_account_data(amount: u64, state: AccountState) -> Vec<u8> {
    let account = TokenAccount {
        mint: pk([9u8; 32]),
        owner: pk(HOLDER),
        amount,
        state,
        ..TokenAccount::default()
    };
    let mut data = vec![0u8; TokenAccount::LEN];
    TokenAccount::pack(account, &mut data).unwrap();
    data
}

fn view(key: [u8; 32], is_signer: bool, lamports: u64, data: Vec<u8>) -> AccountView {
    AccountView { key: Address(key), is_signer, lamports, data }
}

fn start_accounts() -> Vec<AccountView> {
    let rent = Rent::default();
    vec![
        view(HOLDER, true, 1_000_000_000, vec![]),
        view(spl_token::id().to_bytes(), false, 0, vec![]),
        view(solana_program::sysvar::rent::id().to_bytes(), false, 0, bincode::serialize(&rent).unwrap()),
        view(DEPOSIT, false, 0, token_account_data(100, AccountState::Initialized)),
        view(AIRDROP, false, rent.minimum_balance(AIRDROP_LEN), vec![0u8; AIRDROP_LEN]),
    ]
}

fn started_airdrop_data() -> Vec<u8> {
    let mut data = vec![0u8; AIRDROP_LEN];
    complete_start_airdrop(&Address(DEPOSIT), &Address(HOLDER), &mut data).unwrap();
    data
}

fn finish_accounts(signer: [u8; 32]) -> Vec<AccountView> {
    vec![
        view(signer, true, 10, vec![]),
        view(spl_token::id().to_bytes(), false, 0, vec![]),
        view(authority().0.to_bytes(), false, 0, vec![]),
        view(DEPOSIT, false, 0, token_account_data(100, AccountState::Initialized)),
        view(RECEIVER, false, 0, vec![]),
        view(AIRDROP, false, 20, started_airdrop_data()),
    ]
}

fn take_accounts() -> Vec<AccountView> {
    vec![
        view(TAKER, true, 0, vec![]),
        view(spl_token::id().to_bytes(), false, 0, vec![]),
        view(authority().0.to_bytes(), false, 0, vec![]),
        view(DEPOSIT, false, 0, token_account_data(100, AccountState::Initialized)),
        view(AIRDROP, false, 0, started_airdrop_data()),
        view(RECEIVER, false, 0, vec![]),
    ]
}

fn expect_start_error(accounts: &[AccountView], expected: ProgramError) {
    match start_airdrop(&Address(PROGRAM), accounts) {
        Ok(_) => panic!("start accepted"),
        Err(e) => assert_eq!(e, expected),
    }
}

#[test]
fn authority_is_the_derived_address() {
    let (pda, bump) = authority();
    assert_eq!(program_authority(&Address(PROGRAM)), Ok((Address(pda.to_bytes()), bump)));
}

#[test]
fn next_account_counts() {
    let accounts = take_accounts();
    assert!(next_account(&accounts, 5).is_ok());
    assert_eq!(next_account(&accounts, 6).err(), Some(ProgramError::NotEnoughAccountKeys));
}

#[test]
fn token_account_reading() {
    assert_eq!(unpack_token_account(&token_account_data(42, AccountState::Initialized)), Ok(42));
    assert_eq!(unpack_token_account(&token_account_data(42, AccountState::Frozen)), Ok(42));
    assert_eq!(
        unpack_token_account(&token_account_data(42, AccountState::Uninitialized)),
        Err(ProgramError::UninitializedAccount)
    );
    assert_eq!(unpack_token_account(&[0u8; 10]), Err(ProgramError::InvalidAccountData));
    let mut bad_state = token_account_data(42, AccountState::Initialized);
    bad_state[108] = 7;
    assert_eq!(unpack_token_account(&bad_state), Err(ProgramError::InvalidAccountData));
    let mut bad_tag = token_account_data(42, AccountState::Initialized);
    bad_tag[109] = 2;
    assert_eq!(unpack_token_account(&bad_tag), Err(ProgramError::InvalidAccountData));
    let mut bad_tag = token_account_data(42, AccountState::Initialized);
    bad_tag[132] = 1;
    assert_eq!(unpack_token_account(&bad_tag), Err(ProgramError::InvalidAccountData));
}

#[test]
fn start_airdrop_hands_deposit_to_authority() {
    let call = start_airdrop(&Address(PROGRAM), &start_accounts()).unwrap();
    let (pda, _) = authority();
    let expected = spl_token::instruction::set_authority(
        &spl_token::id(),
        &pk(DEPOSIT),
        Some(&pda),
        spl_token::instruction::AuthorityType::AccountOwner,
        &pk(HOLDER),
        &[&pk(HOLDER)],
    )
    .unwrap();
    assert_eq!(call.instruction, expected);
    assert_eq!(call.accounts, vec![3, 0, 1]);
    assert_eq!(call.signer_bump, None);
    assert_eq!(
        call.action,
        TokenAction::SetAuthority {
            account: Address(DEPOSIT),
            new_authority: Address(pda.to_bytes()),
            authority_type: AuthorityType::AccountOwner,
            owner: Address(HOLDER),
        }
    );
}

#[test]
fn start_airdrop_checks() {
    let mut accounts = start_accounts();
    accounts[0].is_signer = false;
    expect_start_error(&accounts, ProgramError::MissingRequiredSignature);

    let mut accounts = start_accounts();
    accounts[2].key = Address([8u8; 32]);
    expect_start_error(&accounts, ProgramError::InvalidArgument);

    let mut accounts = start_accounts();
    accounts[2].data.truncate(16);
    expect_start_error(&accounts, ProgramError::InvalidArgument);

    let mut accounts = start_accounts();
    accounts[3].data = token_account_data(0, AccountState::Initialized);
    expect_start_error(&accounts, ProgramError::InsufficientFunds);

    let mut accounts = start_accounts();
    accounts[3].data = token_account_data(5, AccountState::Uninitialized);
    expect_start_error(&accounts, ProgramError::UninitializedAccount);

    let mut accounts = start_accounts();
    accounts[3].data = vec![1, 2, 3];
    expect_start_error(&accounts, ProgramError::InvalidAccountData);

    let mut accounts = start_accounts();
    accounts[4].lamports -= 1;
    expect_start_error(&accounts, ProgramError::AccountNotRentExempt);

    let mut accounts = start_accounts();
    accounts[1].key = Address([6u8; 32]);
    expect_start_error(&accounts, ProgramError::IncorrectProgramId);

    let mut accounts = start_accounts();
    accounts.truncate(4);
    expect_start_error(&accounts, ProgramError::NotEnoughAccountKeys);
    accounts.truncate(0);
    expect_start_error(&accounts, ProgramError::NotEnoughAccountKeys);
}

#[test]
fn rent_rate_that_overflows_is_refused() {
    let mut accounts = start_accounts();
    let rent = Rent { lamports_per_byte_year: u64::MAX / 100, exemption_threshold: 2.0, burn_percent: 50 };
    accounts[2].data = bincode::serialize(&rent).unwrap();
    expect_start_error(&accounts, ProgramError::InvalidArgument);
}

#[test]
fn complete_start_records_then_refuses_second_start() {
    let mut data = vec![0xFFu8; AIRDROP_LEN];
    data[0] = 0;
    data[65..73].copy_from_slice(&77u64.to_le_bytes());
    assert_eq!(complete_start_airdrop(&Address(DEPOSIT), &Address(HOLDER), &mut data), Ok(()));
    let record = Airdrop::unpack_unchecked(&data).unwrap();
    assert_eq!(
        record,
        Airdrop { is_initialized: true, deposit: Address(DEPOSIT), withdrawal: Address(HOLDER), amount: 77 }
    );
    assert_eq!(data[73..], [0xFFu8; 7]);
    let before = data.clone();
    assert_eq!(
        complete_start_airdrop(&Address([0u8; 32]), &Address(RECEIVER), &mut data),
        Err(ProgramError::AccountAlreadyInitialized)
    );
    assert_eq!(data, before);
    let mut short = vec![0u8; 3];
    assert_eq!(
        complete_start_airdrop(&Address(DEPOSIT), &Address(HOLDER), &mut short),
        Err(ProgramError::InvalidAccountData)
    );
}

#[test]
fn finish_airdrop_sends_deposit_to_receiver() {
    let (transfer, close) = finish_airdrop(&Address(PROGRAM), &finish_accounts(HOLDER)).unwrap();
    let (pda, bump) = authority();
    let expected_transfer = spl_token::instruction::transfer(
        &spl_token::id(),
        &pk(DEPOSIT),
        &pk(RECEIVER),
        &pda,
        &[&pda],
        100,
    )
    .unwrap();
    let expected_close =
        spl_token::instruction::close_account(&spl_token::id(), &pk(DEPOSIT), &pk(HOLDER), &pda, &[&pda]).unwrap();
    assert_eq!(transfer.instruction, expected_transfer);
    assert_eq!(close.instruction, expected_close);
    assert_eq!(transfer.accounts, vec![3, 4, 2, 1]);
    assert_eq!(close.accounts, vec![3, 0, 2, 1]);
    assert_eq!(transfer.signer_bump, Some(bump));
    assert_eq!(close.signer_bump, Some(bump));
}

#[test]
fn finish_airdrop_by_other_is_refused() {
    match finish_airdrop(&Address(PROGRAM), &finish_accounts(RECEIVER)) {
        Ok(_) => panic!("finish accepted"),
        Err(e) => assert_eq!(e, ProgramError::InvalidAccountData),
    }
    let mut accounts = finish_accounts(HOLDER);
    accounts[0].is_signer = false;
    assert_eq!(finish_airdrop(&Address(PROGRAM), &accounts).err(), Some(ProgramError::MissingRequiredSignature));
    let mut accounts = finish_accounts(HOLDER);
    accounts[5].data = vec![0u8; 5];
    assert_eq!(finish_airdrop(&Address(PROGRAM), &accounts).err(), Some(ProgramError::InvalidAccountData));
    let mut accounts = finish_accounts(HOLDER);
    accounts[1].key = Address([6u8; 32]);
    assert_eq!(finish_airdrop(&Address(PROGRAM), &accounts).err(), Some(ProgramError::IncorrectProgramId));
    let mut accounts = finish_accounts(HOLDER);
    accounts.truncate(5);
    assert_eq!(finish_airdrop(&Address(PROGRAM), &accounts).err(), Some(ProgramError::NotEnoughAccountKeys));
}

#[test]
fn complete_finish_moves_lamports() {
    assert_eq!(complete_finish_airdrop(5, 7), Ok((12, 0)));
    assert_eq!(complete_finish_airdrop(u64::MAX - 1, 1), Ok((u64::MAX, 0)));
    assert_eq!(complete_finish_airdrop(u64::MAX, 1), Err(ProgramError::Custom(1)));
}

#[test]
fn take_airdrop_pays_the_signing_taker() {
    let call = take_airdrop(&Address(PROGRAM), &take_accounts(), 33).unwrap();
    let (pda, bump) = authority();
    let expected =
        spl_token::instruction::transfer(&spl_token::id(), &pk(DEPOSIT), &pk(RECEIVER), &pda, &[&pda], 33).unwrap();
    assert_eq!(call.instruction, expected);
    assert_eq!(call.accounts, vec![3, 5, 2, 1]);
    assert_eq!(call.signer_bump, Some(bump));
    let mut accounts = take_accounts();
    accounts[0].is_signer = false;
    assert_eq!(take_airdrop(&Address(PROGRAM), &accounts, 33).err(), Some(ProgramError::MissingRequiredSignature));
    let mut accounts = take_accounts();
    accounts[1].key = Address([6u8; 32]);
    assert_eq!(take_airdrop(&Address(PROGRAM), &accounts, 33).err(), Some(ProgramError::IncorrectProgramId));
    accounts.truncate(5);
    assert_eq!(take_airdrop(&Address(PROGRAM), &accounts, 33).err(), Some(ProgramError::NotEnoughAccountKeys));
}

#[test]
fn process_dispatches() {
    let program = Address(PROGRAM);
    match process(&program, &start_accounts(), &Instruction::StartAirdrop.encode()) {
        Ok(Plan::StartAirdrop { .. }) => {},
        _ => panic!("expected a start plan"),
    }
    match process(&program, &finish_accounts(HOLDER), &Instruction::FinishAirdrop.encode()) {
        Ok(Plan::FinishAirdrop { .. }) => {},
        _ => panic!("expected a finish plan"),
    }
    match process(&program, &take_accounts(), &Instruction::TakeAirdrop { amount: 4 }.encode()) {
        Ok(Plan::TakeAirdrop { call }) => {
            assert_eq!(call.action, TokenAction::Transfer {
                source: Address(DEPOSIT),
                destination: Address(RECEIVER),
                authority: Address(authority().0.to_bytes()),
                amount: 4,
            });
        },
        _ => panic!("expected a take plan"),
    }
    match process(&program, &take_accounts(), &[5, 0, 0, 0]) {
        Err(e) => assert_eq!(e, ProgramError::Custom(0)),
        Ok(_) => panic!("malformed data accepted"),
    }
}

#[test]
fn instruction_meta_layout_is_runtime_layout() {
    let ix = RuntimeInstruction::new_with_bytes(pk(PROGRAM), &[0, 0, 0, 0], vec![AccountMeta::new(pk(HOLDER), true)]);
    assert_eq!(ix.accounts[0].is_writable, true);
}

#[test]
fn complete_plan_applies_the_follow_up_steps() {
    let program = Address(PROGRAM);
    let start = process(&program, &start_accounts(), &Instruction::StartAirdrop.encode()).ok().unwrap();
    let mut accounts = start_accounts();
    assert_eq!(complete_plan(&start, &mut accounts), Ok(()));
    let record = Airdrop::unpack_unchecked(&accounts[4].data).unwrap();
    assert_eq!(record.deposit, Address(DEPOSIT));
    assert_eq!(record.withdrawal, Address(HOLDER));
    assert!(record.is_initialized);
    assert_eq!(accounts[3].data, start_accounts()[3].data);
    let before = accounts[4].data.clone();
    assert_eq!(complete_plan(&start, &mut accounts), Err(ProgramError::AccountAlreadyInitialized));
    assert_eq!(accounts[4].data, before);
    let mut short = start_accounts();
    short.truncate(4);
    assert_eq!(complete_plan(&start, &mut short), Err(ProgramError::NotEnoughAccountKeys));

    let finish = process(&program, &finish_accounts(HOLDER), &Instruction::FinishAirdrop.encode()).ok().unwrap();
    let mut accounts = finish_accounts(HOLDER);
    assert_eq!(complete_plan(&finish, &mut accounts), Ok(()));
    assert_eq!(accounts[0].lamports, 30);
    assert_eq!(accounts[5].lamports, 0);
    assert_eq!(accounts[5].data, started_airdrop_data());
    let mut accounts = finish_accounts(HOLDER);
    accounts[0].lamports = u64::MAX;
    assert_eq!(complete_plan(&finish, &mut accounts), Err(ProgramError::Custom(1)));
    assert_eq!(accounts[0].lamports, u64::MAX);
    assert_eq!(accounts[5].lamports, 20);

    let take = process(&program, &take_accounts(), &Instruction::TakeAirdrop { amount: 1 }.encode()).ok().unwrap();
    let mut accounts = take_accounts();
    assert_eq!(complete_plan(&take, &mut accounts), Ok(()));
    assert_eq!(accounts[5].lamports, 0);
}
