//! The decisions of the faucet program.
//!
//! The program alternates its own checks with calls into the token program, which the
//! runtime performs. [`process`] makes every check that comes before the first call and
//! says which calls to make; [`complete_plan`] makes the decisions that follow the calls,
//! on the accounts as the calls left them.
use crate::address::Address;
use crate::error::{Error, ProgramError};
use crate::instruction::Instruction;
use crate::runtime::{
    rent_sysvar, rent_sysvar_id_bytes, sysvar_rent,
    close_account_instruction, find_program_address, minimum_balance, program_address,
    rent_lamports_per_byte_year, rent_minimum_balance, rent_rate, set_authority_instruction,
    token_account, token_account_unpack_unchecked, token_close_account, token_program_id_bytes,
    token_set_authority, token_transfer, transfer_instruction, AuthorityType,
    ACCOUNT_STORAGE_OVERHEAD,
};
use crate::state::{Airdrop, AirdropView, AIRDROP_LEN};
use solana_program::instruction::Instruction as RuntimeInstruction;
use solana_program::rent::Rent;
use vstd::prelude::*;
use vstd::slice::slice_to_vec;

verus! {

/// An account as the program sees it: its key, whether it signed the transaction, its
/// balance in lamports and its data.
#[derive(Clone, Debug)]
pub struct AccountView {
    pub key: Address,
    pub is_signer: bool,
    pub lamports: u64,
    pub data: Vec<u8>,
}

/// The seed from which the program derives the address of its authority: the bytes of
/// the ASCII word "stamm".
pub open spec fn spec_authority_seed() -> Seq<u8> {
    seq![115u8, 116, 97, 109, 109]
}

/// The seed from which the program derives the address of its authority.
pub fn authority_seed() -> (r: Vec<u8>)
    ensures
        r@ == spec_authority_seed(),
{
    let r: Vec<u8> = vec![115u8, 116, 97, 109, 109];
    assert(r@ =~= spec_authority_seed());
    r
}

/// The program's authority address and its bump seed, as the runtime derives them.
pub open spec fn spec_authority(program_id: Seq<u8>) -> Option<(Seq<u8>, u8)> {
    program_address(spec_authority_seed(), program_id)
}

/// Derives the program's authority address and its bump seed. Where the runtime finds no
/// address for the seed, the program fails with `InvalidSeeds`.
pub fn program_authority(program_id: &Address) -> (r: Result<(Address, u8), ProgramError>)
    ensures
        match r {
            Ok((a, bump)) => spec_authority(program_id@) == Some((a@, bump)),
            Err(e) => spec_authority(program_id@) is None && e == ProgramError::InvalidSeeds,
        },
{
    let seed = authority_seed();
    match find_program_address(seed.as_slice(), program_id) {
        Some(found) => Ok(found),
        None => Err(ProgramError::InvalidSeeds),
    }
}

/// The account at position `i`, or `NotEnoughAccountKeys` when fewer were handed over.
pub fn next_account(accounts: &[AccountView], i: usize) -> (r: Result<&AccountView, ProgramError>)
    ensures
        match r {
            Ok(a) => i < accounts@.len() && *a == accounts@[i as int],
            Err(e) => i >= accounts@.len() && e == ProgramError::NotEnoughAccountKeys,
        },
{
    if i < accounts.len() {
        Ok(&accounts[i])
    } else {
        Err(ProgramError::NotEnoughAccountKeys)
    }
}

/// What reading an initialized token account gives: its amount.
pub open spec fn spec_unpack_token_account(data: Seq<u8>) -> Result<u64, ProgramError> {
    match token_account(data) {
        None => Err(ProgramError::InvalidAccountData),
        Some((amount, initialized)) => if initialized {
            Ok(amount)
        } else {
            Err(ProgramError::UninitializedAccount)
        },
    }
}

/// Reads a token account that must be initialized, and gives its amount.
pub fn unpack_token_account(data: &[u8]) -> (r: Result<u64, ProgramError>)
    ensures
        r == spec_unpack_token_account(data@),
{
    match token_account_unpack_unchecked(data) {
        None => Err(ProgramError::InvalidAccountData),
        Some((amount, initialized)) => if initialized {
            Ok(amount)
        } else {
            Err(ProgramError::UninitializedAccount)
        },
    }
}

/// Whether the minimum balance for `data_len` bytes can be computed from `rent`.
pub open spec fn rent_computable(rent: Rent, data_len: usize) -> bool {
    &&& ACCOUNT_STORAGE_OVERHEAD + data_len <= u64::MAX
    &&& (ACCOUNT_STORAGE_OVERHEAD + data_len) * rent_rate(rent) <= u64::MAX
}

/// Whether a balance keeps an account of `data_len` bytes exempt from rent. A rent value
/// whose minimum balance overflows is refused with `InvalidArgument`.
pub fn rent_is_exempt(rent: &Rent, balance: u64, data_len: usize) -> (r: Result<bool, ProgramError>)
    ensures
        match r {
            Ok(b) => rent_computable(*rent, data_len) && b == (balance >= rent_minimum_balance(*rent, data_len)),
            Err(e) => !rent_computable(*rent, data_len) && e == ProgramError::InvalidArgument,
        },
{
    let rate: u64 = rent_lamports_per_byte_year(rent);
    let bytes: u64 = match ACCOUNT_STORAGE_OVERHEAD.checked_add(data_len as u64) {
        Some(bytes) => bytes,
        None => return Err(ProgramError::InvalidArgument),
    };
    match bytes.checked_mul(rate) {
        None => Err(ProgramError::InvalidArgument),
        Some(_) => Ok(balance >= minimum_balance(rent, data_len)),
    }
}

/// A token-program operation, with the authority that signs for it.
#[derive(Clone, Copy, Debug, PartialEq, Eq)]
pub enum TokenAction {
    /// Makes `new_authority` the holder of the `authority_type` authority over `account`
    /// (a token account or a mint) in place of `owner`.
    SetAuthority { account: Address, new_authority: Address, authority_type: AuthorityType, owner: Address },
    /// Moves `amount` tokens from `source` to `destination`, signed by `authority`.
    Transfer { source: Address, destination: Address, authority: Address, amount: u64 },
    /// Closes the token account `account`, sending its lamports to `destination`.
    CloseAccount { account: Address, destination: Address, owner: Address },
}

/// A [`TokenAction`] with its addresses as byte sequences.
pub enum TokenActionView {
    SetAuthority { account: Seq<u8>, new_authority: Seq<u8>, authority_type: AuthorityType, owner: Seq<u8> },
    Transfer { source: Seq<u8>, destination: Seq<u8>, authority: Seq<u8>, amount: u64 },
    CloseAccount { account: Seq<u8>, destination: Seq<u8>, owner: Seq<u8> },
}

impl View for TokenAction {
    type V = TokenActionView;

    open spec fn view(&self) -> TokenActionView {
        match *self {
            TokenAction::SetAuthority { account, new_authority, authority_type, owner } => TokenActionView::SetAuthority {
                account: account@,
                new_authority: new_authority@,
                authority_type,
                owner: owner@,
            },
            TokenAction::Transfer { source, destination, authority, amount } => TokenActionView::Transfer {
                source: source@,
                destination: destination@,
                authority: authority@,
                amount,
            },
            TokenAction::CloseAccount { account, destination, owner } => TokenActionView::CloseAccount {
                account: account@,
                destination: destination@,
                owner: owner@,
            },
        }
    }
}

impl TokenActionView {
    /// The instruction that the token program's library builds for the operation, with
    /// the authority as its only signer.
    pub open spec fn spec_instruction(self, token_program: Seq<u8>) -> RuntimeInstruction {
        match self {
            TokenActionView::SetAuthority { account, new_authority, authority_type, owner } => set_authority_instruction(
                token_program,
                account,
                new_authority,
                authority_type,
                owner,
                seq![owner],
            ),
            TokenActionView::Transfer { source, destination, authority, amount } => transfer_instruction(
                token_program,
                source,
                destination,
                authority,
                seq![authority],
                amount,
            ),
            TokenActionView::CloseAccount { account, destination, owner } => close_account_instruction(
                token_program,
                account,
                destination,
                owner,
                seq![owner],
            ),
        }
    }
}

/// A call into the token program that the runtime is to make for the faucet.
pub struct TokenCall {
    /// The token program that is called.
    pub token_program: Address,
    /// What the call does.
    pub action: TokenAction,
    /// The instruction that the call sends.
    pub instruction: RuntimeInstruction,
    /// The positions, among the accounts handed to the faucet, of the accounts handed on
    /// to the token program, in order.
    pub accounts: Vec<usize>,
    /// The bump seed with which the faucet signs for its authority address, when it signs.
    pub signer_bump: Option<u8>,
}

impl TokenCall {
    /// Whether the instruction is the one that the token program's library builds for
    /// the action.
    pub open spec fn wf(self) -> bool {
        self.instruction == self.action@.spec_instruction(self.token_program@)
    }

    /// Builds the call; the token program's library refuses to build it unless
    /// `token_program` is the token program's id.
    pub fn new(token_program: Address, action: TokenAction, accounts: Vec<usize>, signer_bump: Option<u8>) -> (r: Option<TokenCall>)
        ensures
            r is Some <==> token_program@ == token_program_id_bytes(),
            r matches Some(call) ==> call.wf() && call.token_program == token_program && call.action
                == action && call.accounts == accounts && call.signer_bump == signer_bump,
    {
        let built = match action {
            TokenAction::SetAuthority { account, new_authority, authority_type, owner } => {
                let signers: Vec<Address> = vec![owner];
                assert(signers@.map_values(|a: Address| a@) =~= seq![owner@]);
                token_set_authority(&token_program, &account, &new_authority, authority_type, &owner, signers.as_slice())
            },
            TokenAction::Transfer { source, destination, authority, amount } => {
                let signers: Vec<Address> = vec![authority];
                assert(signers@.map_values(|a: Address| a@) =~= seq![authority@]);
                token_transfer(&token_program, &source, &destination, &authority, signers.as_slice(), amount)
            },
            TokenAction::CloseAccount { account, destination, owner } => {
                let signers: Vec<Address> = vec![owner];
                assert(signers@.map_values(|a: Address| a@) =~= seq![owner@]);
                token_close_account(&token_program, &account, &destination, &owner, signers.as_slice())
            },
        };
        match built {
            Some(instruction) => Some(TokenCall { token_program, action, instruction, accounts, signer_bump }),
            None => None,
        }
    }
}

/// The first check that a `StartAirdrop` instruction fails, in the order in which the
/// program makes them, or nothing when it passes them all.
pub open spec fn start_airdrop_failure(program_id: Seq<u8>, accounts: Seq<AccountView>) -> Option<ProgramError> {
    if spec_authority(program_id) is None {
        Some(ProgramError::InvalidSeeds)
    } else if accounts.len() < 1 {
        Some(ProgramError::NotEnoughAccountKeys)
    } else if !accounts[0].is_signer {
        Some(ProgramError::MissingRequiredSignature)
    } else if accounts.len() < 3 {
        Some(ProgramError::NotEnoughAccountKeys)
    } else if accounts[2].key@ != rent_sysvar_id_bytes() {
        Some(ProgramError::InvalidArgument)
    } else if rent_sysvar(accounts[2].key@, accounts[2].data@) is None {
        Some(ProgramError::InvalidArgument)
    } else if accounts.len() < 4 {
        Some(ProgramError::NotEnoughAccountKeys)
    } else if spec_unpack_token_account(accounts[3].data@) is Err {
        Some(spec_unpack_token_account(accounts[3].data@)->Err_0)
    } else if spec_unpack_token_account(accounts[3].data@)->Ok_0 == 0 {
        Some(ProgramError::InsufficientFunds)
    } else if accounts.len() < 5 {
        Some(ProgramError::NotEnoughAccountKeys)
    } else if !rent_computable(rent_sysvar(accounts[2].key@, accounts[2].data@)->Some_0, AIRDROP_LEN) {
        Some(ProgramError::InvalidArgument)
    } else if accounts[4].lamports < rent_minimum_balance(
        rent_sysvar(accounts[2].key@, accounts[2].data@)->Some_0,
        AIRDROP_LEN,
    ) {
        Some(ProgramError::AccountNotRentExempt)
    } else if accounts[1].key@ != token_program_id_bytes() {
        Some(ProgramError::IncorrectProgramId)
    } else {
        None
    }
}

/// The call that an accepted `StartAirdrop` makes.
pub open spec fn is_start_call(program_id: Seq<u8>, accounts: Seq<AccountView>, call: TokenCall) -> bool {
    &&& call.wf()
    &&& accounts[2].key@ == rent_sysvar_id_bytes()
    &&& call.token_program@ == accounts[1].key@
    &&& call.action@ == (TokenActionView::SetAuthority {
        account: accounts[3].key@,
        new_authority: spec_authority(program_id)->Some_0.0,
        authority_type: AuthorityType::AccountOwner,
        owner: accounts[0].key@,
    })
    &&& call.accounts@ == seq![3usize, 0, 1]
    &&& call.signer_bump is None
}

/// `StartAirdrop`, up to its call into the token program. The token holder (account 0)
/// must sign, account 2 must be the rent sysvar, the deposit (account 3) must be an
/// initialized token account holding tokens and the airdrop data account (account 4)
/// must be exempt from rent. The call hands the ownership of the deposit from the holder
/// to the program's authority address; the holder signs it.
pub fn start_airdrop(program_id: &Address, accounts: &[AccountView]) -> (r: Result<TokenCall, ProgramError>)
    ensures
        match r {
            Ok(call) => start_airdrop_failure(program_id@, accounts@) is None && is_start_call(
                program_id@,
                accounts@,
                call,
            ),
            Err(e) => start_airdrop_failure(program_id@, accounts@) == Some(e),
        },
{
    let (authority, _bump) = program_authority(program_id)?;
    let wealthy = next_account(accounts, 0)?;
    if !wealthy.is_signer {
        return Err(ProgramError::MissingRequiredSignature);
    }
    let token_program = next_account(accounts, 1)?;
    let rent_account = next_account(accounts, 2)?;
    let rent = match sysvar_rent(&rent_account.key, rent_account.data.as_slice()) {
        Some(rent) => rent,
        None => return Err(ProgramError::InvalidArgument),
    };
    let deposit = next_account(accounts, 3)?;
    let deposit_amount: u64 = unpack_token_account(deposit.data.as_slice())?;
    if 0 >= deposit_amount {
        return Err(ProgramError::InsufficientFunds);
    }
    let airdrop = next_account(accounts, 4)?;
    if !rent_is_exempt(&rent, airdrop.lamports, AIRDROP_LEN)? {
        return Err(ProgramError::AccountNotRentExempt);
    }
    let action = TokenAction::SetAuthority {
        account: deposit.key,
        new_authority: authority,
        authority_type: AuthorityType::AccountOwner,
        owner: wealthy.key,
    };
    match TokenCall::new(token_program.key, action, vec![3usize, 0, 1], None) {
        Some(call) => {
            assert(call.accounts@ =~= seq![3usize, 0, 1]);
            Ok(call)
        },
        None => Err(ProgramError::IncorrectProgramId),
    }
}

/// What storing the record of a started airdrop does to the airdrop account's data: the
/// record must not be set up yet, and it becomes set up with the deposit and the holder
/// who may finish the airdrop; its amount is kept.
pub open spec fn spec_complete_start_airdrop(deposit: Seq<u8>, holder: Seq<u8>, data: Seq<u8>) -> Result<Seq<u8>, ProgramError> {
    match AirdropView::spec_unpack_unchecked(data) {
        Err(e) => Err(e),
        Ok(a) => if a.is_initialized {
            Err(ProgramError::AccountAlreadyInitialized)
        } else {
            Ok(
                AirdropView { is_initialized: true, deposit, withdrawal: holder, amount: a.amount }.spec_pack_into(
                    data,
                ),
            )
        },
    }
}

/// The end of `StartAirdrop`, once the token program has handed the deposit over: records
/// the airdrop in the airdrop account's data. On failure the data is left unchanged.
pub fn complete_start_airdrop(deposit: &Address, holder: &Address, airdrop_data: &mut Vec<u8>) -> (r: Result<(), ProgramError>)
    ensures
        match spec_complete_start_airdrop(deposit@, holder@, old(airdrop_data)@) {
            Ok(d) => r is Ok && final(airdrop_data)@ == d,
            Err(e) => r == Err::<(), ProgramError>(e) && final(airdrop_data)@ == old(airdrop_data)@,
        },
{
    let mut record = Airdrop::unpack_unchecked(airdrop_data.as_slice())?;
    if record.is_initialized() {
        return Err(ProgramError::AccountAlreadyInitialized);
    }
    record.is_initialized = true;
    record.deposit = *deposit;
    record.withdrawal = *holder;
    Airdrop::pack(record, airdrop_data)
}

/// The first check that a `FinishAirdrop` instruction fails, in the order in which the
/// program makes them, or nothing when it passes them all.
pub open spec fn finish_airdrop_failure(program_id: Seq<u8>, accounts: Seq<AccountView>) -> Option<ProgramError> {
    if spec_authority(program_id) is None {
        Some(ProgramError::InvalidSeeds)
    } else if accounts.len() < 1 {
        Some(ProgramError::NotEnoughAccountKeys)
    } else if !accounts[0].is_signer {
        Some(ProgramError::MissingRequiredSignature)
    } else if accounts.len() < 4 {
        Some(ProgramError::NotEnoughAccountKeys)
    } else if spec_unpack_token_account(accounts[3].data@) is Err {
        Some(spec_unpack_token_account(accounts[3].data@)->Err_0)
    } else if accounts.len() < 6 {
        Some(ProgramError::NotEnoughAccountKeys)
    } else if AirdropView::spec_unpack_unchecked(accounts[5].data@) is Err {
        Some(AirdropView::spec_unpack_unchecked(accounts[5].data@)->Err_0)
    } else if accounts[0].key@ != AirdropView::spec_unpack_unchecked(accounts[5].data@)->Ok_0.withdrawal {
        Some(ProgramError::InvalidAccountData)
    } else if accounts[1].key@ != token_program_id_bytes() {
        Some(ProgramError::IncorrectProgramId)
    } else {
        None
    }
}

/// The calls that an accepted `FinishAirdrop` makes: the whole deposit to the receiver
/// (account 4), then the closing of the deposit in favour of the holder (account 0).
pub open spec fn is_finish_calls(program_id: Seq<u8>, accounts: Seq<AccountView>, transfer: TokenCall, close: TokenCall) -> bool {
    &&& transfer.wf()
    &&& close.wf()
    &&& transfer.token_program@ == accounts[1].key@
    &&& close.token_program@ == accounts[1].key@
    &&& transfer.action@ == (TokenActionView::Transfer {
        source: accounts[3].key@,
        destination: accounts[4].key@,
        authority: spec_authority(program_id)->Some_0.0,
        amount: spec_unpack_token_account(accounts[3].data@)->Ok_0,
    })
    &&& close.action@ == (TokenActionView::CloseAccount {
        account: accounts[3].key@,
        destination: accounts[0].key@,
        owner: spec_authority(program_id)->Some_0.0,
    })
    &&& transfer.accounts@ == seq![3usize, 4, 2, 1]
    &&& close.accounts@ == seq![3usize, 0, 2, 1]
    &&& transfer.signer_bump == Some(spec_authority(program_id)->Some_0.1)
    &&& close.signer_bump == Some(spec_authority(program_id)->Some_0.1)
}

/// `FinishAirdrop`, up to its calls into the token program. The accounts are the token
/// holder (0), the token program (1), the deposit's owner (2), the deposit (3), the
/// receiver (4) and the airdrop data account (5). The holder must sign and be the one
/// recorded in the airdrop data, and the deposit must be an initialized token account.
/// The first call moves the whole deposit to the receiver, the second closes the deposit
/// in the holder's favour; the program's authority signs both.
pub fn finish_airdrop(program_id: &Address, accounts: &[AccountView]) -> (r: Result<(TokenCall, TokenCall), ProgramError>)
    ensures
        match r {
            Ok((transfer, close)) => finish_airdrop_failure(program_id@, accounts@) is None
                && is_finish_calls(program_id@, accounts@, transfer, close),
            Err(e) => finish_airdrop_failure(program_id@, accounts@) == Some(e),
        },
{
    let (authority, bump) = program_authority(program_id)?;
    let wealthy = next_account(accounts, 0)?;
    if !wealthy.is_signer {
        return Err(ProgramError::MissingRequiredSignature);
    }
    let token_program = next_account(accounts, 1)?;
    let _deposit_owner = next_account(accounts, 2)?;
    let deposit = next_account(accounts, 3)?;
    let deposit_amount: u64 = unpack_token_account(deposit.data.as_slice())?;
    let receiver = next_account(accounts, 4)?;
    let airdrop = next_account(accounts, 5)?;
    let record = Airdrop::unpack_unchecked(airdrop.data.as_slice())?;
    if !wealthy.key.same_as(&record.withdrawal) {
        return Err(ProgramError::InvalidAccountData);
    }
    let transfer_action = TokenAction::Transfer {
        source: deposit.key,
        destination: receiver.key,
        authority,
        amount: deposit_amount,
    };
    let transfer = match TokenCall::new(token_program.key, transfer_action, vec![3usize, 4, 2, 1], Some(bump)) {
        Some(call) => call,
        None => return Err(ProgramError::IncorrectProgramId),
    };
    let close_action = TokenAction::CloseAccount { account: deposit.key, destination: wealthy.key, owner: authority };
    let close = match TokenCall::new(token_program.key, close_action, vec![3usize, 0, 2, 1], Some(bump)) {
        Some(call) => call,
        None => return Err(ProgramError::IncorrectProgramId),
    };
    assert(transfer.accounts@ =~= seq![3usize, 4, 2, 1]);
    assert(close.accounts@ =~= seq![3usize, 0, 2, 1]);
    Ok((transfer, close))
}

/// The end of `FinishAirdrop`, once the token program has emptied and closed the deposit:
/// the airdrop account's lamports go to the holder, taking their balances to the holder's
/// new balance and zero. A sum that overflows is refused with the program's
/// `LamportsOverflow` error.
pub fn complete_finish_airdrop(holder_lamports: u64, airdrop_lamports: u64) -> (r: Result<(u64, u64), ProgramError>)
    ensures
        match r {
            Ok((holder, airdrop)) => holder_lamports + airdrop_lamports <= u64::MAX && holder == holder_lamports
                + airdrop_lamports && airdrop == 0,
            Err(e) => holder_lamports + airdrop_lamports > u64::MAX && e == ProgramError::Custom(
                Error::LamportsOverflow.spec_code(),
            ),
        },
{
    match holder_lamports.checked_add(airdrop_lamports) {
        Some(sum) => Ok((sum, 0)),
        None => Err(ProgramError::from(Error::LamportsOverflow)),
    }
}

/// The first check that a `TakeAirdrop` instruction fails, in the order in which the
/// program makes them, or nothing when it passes them all.
pub open spec fn take_airdrop_failure(program_id: Seq<u8>, accounts: Seq<AccountView>) -> Option<ProgramError> {
    if spec_authority(program_id) is None {
        Some(ProgramError::InvalidSeeds)
    } else if accounts.len() < 1 {
        Some(ProgramError::NotEnoughAccountKeys)
    } else if !accounts[0].is_signer {
        Some(ProgramError::MissingRequiredSignature)
    } else if accounts.len() < 6 {
        Some(ProgramError::NotEnoughAccountKeys)
    } else if accounts[1].key@ != token_program_id_bytes() {
        Some(ProgramError::IncorrectProgramId)
    } else {
        None
    }
}

/// The call that an accepted `TakeAirdrop` makes: `amount` tokens from the deposit
/// (account 3) to the taker's token account (account 5).
pub open spec fn is_take_call(program_id: Seq<u8>, accounts: Seq<AccountView>, amount: u64, call: TokenCall) -> bool {
    &&& accounts[0].is_signer
    &&& call.wf()
    &&& call.token_program@ == accounts[1].key@
    &&& call.action@ == (TokenActionView::Transfer {
        source: accounts[3].key@,
        destination: accounts[5].key@,
        authority: spec_authority(program_id)->Some_0.0,
        amount,
    })
    &&& call.accounts@ == seq![3usize, 5, 2, 1]
    &&& call.signer_bump == Some(spec_authority(program_id)->Some_0.1)
}

/// `TakeAirdrop`. The accounts are the taker (0), the token program (1), the deposit's
/// owner (2), the deposit (3), the airdrop data account (4) and the taker's token account
/// (5). The taker must sign; the call then moves `amount` tokens from the deposit to the
/// taker's token account, signed by the program's authority.
pub fn take_airdrop(program_id: &Address, accounts: &[AccountView], amount: u64) -> (r: Result<TokenCall, ProgramError>)
    ensures
        match r {
            Ok(call) => take_airdrop_failure(program_id@, accounts@) is None && is_take_call(
                program_id@,
                accounts@,
                amount,
                call,
            ),
            Err(e) => take_airdrop_failure(program_id@, accounts@) == Some(e),
        },
{
    let (authority, bump) = program_authority(program_id)?;
    let taker = next_account(accounts, 0)?;
    if !taker.is_signer {
        return Err(ProgramError::MissingRequiredSignature);
    }
    let token_program = next_account(accounts, 1)?;
    let _deposit_owner = next_account(accounts, 2)?;
    let deposit = next_account(accounts, 3)?;
    let _airdrop = next_account(accounts, 4)?;
    let receiver = next_account(accounts, 5)?;
    let action = TokenAction::Transfer { source: deposit.key, destination: receiver.key, authority, amount };
    match TokenCall::new(token_program.key, action, vec![3usize, 5, 2, 1], Some(bump)) {
        Some(call) => {
            assert(call.accounts@ =~= seq![3usize, 5, 2, 1]);
            Ok(call)
        },
        None => Err(ProgramError::IncorrectProgramId),
    }
}

/// What the runtime is to do for an accepted instruction.
pub enum Plan {
    /// Make `call`, then finish with [`complete_plan`], which stores the record in the
    /// airdrop data account (account 4) for the deposit (account 3) and the holder
    /// (account 0).
    StartAirdrop { call: TokenCall },
    /// Make `transfer`, then `close`, then finish with [`complete_plan`], which moves the
    /// airdrop data account's lamports (account 5) to the holder (account 0).
    FinishAirdrop { transfer: TokenCall, close: TokenCall },
    /// Make `call`; nothing follows.
    TakeAirdrop { call: TokenCall },
}

/// An account placed in a list while another is taken out of it.
fn placeholder_account() -> (r: AccountView)
    ensures
        r.data@.len() == 0,
{
    AccountView { key: Address([0u8; 32]), is_signer: false, lamports: 0, data: Vec::new() }
}

/// Whether `after` is `before` with the data of account `i` replaced by `data`.
pub open spec fn with_data(before: Seq<AccountView>, after: Seq<AccountView>, i: int, data: Seq<u8>) -> bool {
    &&& after.len() == before.len()
    &&& forall|j: int| 0 <= j < before.len() && j != i ==> after[j] == before[j]
    &&& after[i].key == before[i].key
    &&& after[i].is_signer == before[i].is_signer
    &&& after[i].lamports == before[i].lamports
    &&& after[i].data@ == data
}

/// Whether `after` is `before` with the balances of accounts `i` and `k` replaced by
/// `bi` and `bk`.
pub open spec fn with_balances(before: Seq<AccountView>, after: Seq<AccountView>, i: int, bi: u64, k: int, bk: u64) -> bool {
    &&& after.len() == before.len()
    &&& forall|j: int| 0 <= j < before.len() && j != i && j != k ==> after[j] == before[j]
    &&& after[i].key == before[i].key && after[i].is_signer == before[i].is_signer
        && after[i].data == before[i].data && after[i].lamports == bi
    &&& after[k].key == before[k].key && after[k].is_signer == before[k].is_signer
        && after[k].data == before[k].data && after[k].lamports == bk
}

/// The steps that follow a plan's calls, applied to the accounts as the calls left them.
/// After `StartAirdrop` the airdrop record (account 4) is stored for the deposit
/// (account 3) and the holder (account 0); after `FinishAirdrop` the airdrop account's
/// lamports (account 5) go to the holder (account 0); after `TakeAirdrop` nothing
/// follows. On failure the accounts are left as they were.
pub fn complete_plan(plan: &Plan, accounts: &mut Vec<AccountView>) -> (r: Result<(), ProgramError>)
    ensures
        match *plan {
            Plan::StartAirdrop { .. } => if old(accounts)@.len() < 5 {
                r == Err::<(), ProgramError>(ProgramError::NotEnoughAccountKeys) && final(accounts)@ == old(accounts)@
            } else {
                match spec_complete_start_airdrop(
                    old(accounts)@[3].key@,
                    old(accounts)@[0].key@,
                    old(accounts)@[4].data@,
                ) {
                    Ok(d) => r is Ok && with_data(old(accounts)@, final(accounts)@, 4, d),
                    Err(e) => r == Err::<(), ProgramError>(e) && final(accounts)@ == old(accounts)@,
                }
            },
            Plan::FinishAirdrop { .. } => if old(accounts)@.len() < 6 {
                r == Err::<(), ProgramError>(ProgramError::NotEnoughAccountKeys) && final(accounts)@ == old(accounts)@
            } else if old(accounts)@[0].lamports + old(accounts)@[5].lamports > u64::MAX {
                r == Err::<(), ProgramError>(ProgramError::Custom(Error::LamportsOverflow.spec_code()))
                    && final(accounts)@ == old(accounts)@
            } else {
                r is Ok && with_balances(
                    old(accounts)@,
                    final(accounts)@,
                    0,
                    (old(accounts)@[0].lamports + old(accounts)@[5].lamports) as u64,
                    5,
                    0,
                )
            },
            Plan::TakeAirdrop { .. } => r is Ok && final(accounts)@ == old(accounts)@,
        },
{
    match plan {
        Plan::StartAirdrop { .. } => {
            if accounts.len() < 5 {
                return Err(ProgramError::NotEnoughAccountKeys);
            }
            let deposit = accounts[3].key;
            let holder = accounts[0].key;
            let mut data = slice_to_vec(accounts[4].data.as_slice());
            complete_start_airdrop(&deposit, &holder, &mut data)?;
            let updated = AccountView {
                key: accounts[4].key,
                is_signer: accounts[4].is_signer,
                lamports: accounts[4].lamports,
                data,
            };
            accounts.set(4, updated);
            Ok(())
        },
        Plan::FinishAirdrop { .. } => {
            if accounts.len() < 6 {
                return Err(ProgramError::NotEnoughAccountKeys);
            }
            let (holder_balance, airdrop_balance) = complete_finish_airdrop(accounts[0].lamports, accounts[5].lamports)?;
            let ghost before = accounts@;
            let mut holder = placeholder_account();
            accounts.set_and_swap(0, &mut holder);
            holder.lamports = holder_balance;
            accounts.set(0, holder);
            let mut airdrop = placeholder_account();
            accounts.set_and_swap(5, &mut airdrop);
            airdrop.lamports = airdrop_balance;
            accounts.set(5, airdrop);
            assert(with_balances(before, accounts@, 0, holder_balance, 5, airdrop_balance));
            Ok(())
        },
        Plan::TakeAirdrop { .. } => Ok(()),
    }
}

/// The first check that the instruction data fails, or nothing when it passes them all.
pub open spec fn process_failure(program_id: Seq<u8>, accounts: Seq<AccountView>, data: Seq<u8>) -> Option<ProgramError> {
    match Instruction::spec_decode(data) {
        None => Some(ProgramError::Custom(Error::MalformedInstruction.spec_code())),
        Some(Instruction::StartAirdrop) => start_airdrop_failure(program_id, accounts),
        Some(Instruction::FinishAirdrop) => finish_airdrop_failure(program_id, accounts),
        Some(Instruction::TakeAirdrop { .. }) => take_airdrop_failure(program_id, accounts),
    }
}

/// The program's entry: decodes the instruction and makes the checks that come before its
/// first call into the token program. Data that does not start with an instruction is
/// refused with the program's `MalformedInstruction` error.
pub fn process(program_id: &Address, accounts: &[AccountView], instruction_data: &[u8]) -> (r: Result<Plan, ProgramError>)
    ensures
        match r {
            Ok(plan) => process_failure(program_id@, accounts@, instruction_data@) is None && match (
                Instruction::spec_decode(instruction_data@)->Some_0,
                plan,
            ) {
                (Instruction::StartAirdrop, Plan::StartAirdrop { call }) => is_start_call(
                    program_id@,
                    accounts@,
                    call,
                ),
                (Instruction::FinishAirdrop, Plan::FinishAirdrop { transfer, close }) => is_finish_calls(
                    program_id@,
                    accounts@,
                    transfer,
                    close,
                ),
                (Instruction::TakeAirdrop { amount }, Plan::TakeAirdrop { call }) => is_take_call(
                    program_id@,
                    accounts@,
                    amount,
                    call,
                ),
                _ => false,
            },
            Err(e) => process_failure(program_id@, accounts@, instruction_data@) == Some(e),
        },
{
    let instruction = match Instruction::decode(instruction_data) {
        Some(instruction) => instruction,
        None => return Err(ProgramError::from(Error::MalformedInstruction)),
    };
    match instruction {
        Instruction::StartAirdrop => {
            let call = start_airdrop(program_id, accounts)?;
            Ok(Plan::StartAirdrop { call })
        },
        Instruction::FinishAirdrop => {
            let (transfer, close) = finish_airdrop(program_id, accounts)?;
            Ok(Plan::FinishAirdrop { transfer, close })
        },
        Instruction::TakeAirdrop { amount } => {
            let call = take_airdrop(program_id, accounts, amount)?;
            Ok(Plan::TakeAirdrop { call })
        },
    }
}

/// Completing a start records the airdrop as set up, with the deposit and the holder
/// that started it, and keeps its amount.
pub proof fn lemma_start_records_airdrop(deposit: Seq<u8>, holder: Seq<u8>, data: Seq<u8>)
    requires
        deposit.len() == 32,
        holder.len() == 32,
        spec_complete_start_airdrop(deposit, holder, data) is Ok,
    ensures
        AirdropView::spec_unpack_unchecked(spec_complete_start_airdrop(deposit, holder, data)->Ok_0)
            == Ok::<AirdropView, ProgramError>(
            AirdropView {
                is_initialized: true,
                deposit,
                withdrawal: holder,
                amount: AirdropView::spec_unpack_unchecked(data)->Ok_0.amount,
            },
        ),
{
    let a = AirdropView::spec_unpack_unchecked(data)->Ok_0;
    let started = AirdropView { is_initialized: true, deposit, withdrawal: holder, amount: a.amount };
    crate::state::lemma_unpack_after_pack(started, data);
}

/// An airdrop account can be started once: after a start has completed on it, every
/// further start is refused with `AccountAlreadyInitialized` and leaves it as it is.
pub proof fn lemma_start_only_once(
    deposit: Seq<u8>,
    holder: Seq<u8>,
    data: Seq<u8>,
    other_deposit: Seq<u8>,
    other_holder: Seq<u8>,
)
    requires
        deposit.len() == 32,
        holder.len() == 32,
        spec_complete_start_airdrop(deposit, holder, data) is Ok,
    ensures
        spec_complete_start_airdrop(
            other_deposit,
            other_holder,
            spec_complete_start_airdrop(deposit, holder, data)->Ok_0,
        ) == Err::<Seq<u8>, ProgramError>(ProgramError::AccountAlreadyInitialized),
{
    lemma_start_records_airdrop(deposit, holder, data);
}

/// Only the holder who started an airdrop can finish it: a `FinishAirdrop` on the
/// account left by a completed start passes its checks only when account 0 is that holder
/// and has signed.
pub proof fn lemma_finish_only_by_starter(
    program_id: Seq<u8>,
    accounts: Seq<AccountView>,
    deposit: Seq<u8>,
    holder: Seq<u8>,
    data: Seq<u8>,
)
    requires
        deposit.len() == 32,
        holder.len() == 32,
        spec_complete_start_airdrop(deposit, holder, data) is Ok,
        accounts.len() >= 6,
        accounts[5].data@ == spec_complete_start_airdrop(deposit, holder, data)->Ok_0,
        finish_airdrop_failure(program_id, accounts) is None,
    ensures
        accounts[0].key@ == holder,
        accounts[0].is_signer,
        AirdropView::spec_unpack_unchecked(accounts[5].data@)->Ok_0.withdrawal == holder,
{
    lemma_start_records_airdrop(deposit, holder, data);
}

/// A `FinishAirdrop` from anyone but the holder who started the airdrop is refused: when
/// it gets as far as comparing the keys, the answer is `InvalidAccountData`.
pub proof fn lemma_finish_by_other_refused(
    program_id: Seq<u8>,
    accounts: Seq<AccountView>,
    deposit: Seq<u8>,
    holder: Seq<u8>,
    data: Seq<u8>,
)
    requires
        deposit.len() == 32,
        holder.len() == 32,
        spec_complete_start_airdrop(deposit, holder, data) is Ok,
        accounts.len() >= 6,
        accounts[5].data@ == spec_complete_start_airdrop(deposit, holder, data)->Ok_0,
        accounts[0].key@ != holder,
    ensures
        finish_airdrop_failure(program_id, accounts) is Some,
        spec_authority(program_id) is Some && accounts[0].is_signer && spec_unpack_token_account(
            accounts[3].data@,
        ) is Ok ==> finish_airdrop_failure(program_id, accounts) == Some(
            ProgramError::InvalidAccountData,
        ),
{
    lemma_start_records_airdrop(deposit, holder, data);
}

/// A `StartAirdrop` is refused for lack of funds only when the deposit is a readable,
/// initialized token account that holds no tokens at all.
pub proof fn lemma_start_refuses_only_empty_deposit(program_id: Seq<u8>, accounts: Seq<AccountView>)
    requires
        start_airdrop_failure(program_id, accounts) == Some(ProgramError::InsufficientFunds),
    ensures
        accounts.len() >= 4,
        token_account(accounts[3].data@) is Some,
        token_account(accounts[3].data@)->Some_0.0 == 0,
{
}

/// A `StartAirdrop` whose holder signs, whose rent sysvar is readable, whose deposit is an
/// initialized token account holding any positive amount, whose airdrop account is
/// exempt from rent and whose token program is the token program, is accepted.
pub proof fn lemma_start_accepts_any_funded_deposit(program_id: Seq<u8>, accounts: Seq<AccountView>, amount: u64)
    requires
        spec_authority(program_id) is Some,
        accounts.len() >= 5,
        accounts[0].is_signer,
        accounts[2].key@ == rent_sysvar_id_bytes(),
        rent_sysvar(accounts[2].key@, accounts[2].data@) is Some,
        token_account(accounts[3].data@) == Some((amount, true)),
        amount > 0,
        rent_computable(rent_sysvar(accounts[2].key@, accounts[2].data@)->Some_0, AIRDROP_LEN),
        accounts[4].lamports >= rent_minimum_balance(
            rent_sysvar(accounts[2].key@, accounts[2].data@)->Some_0,
            AIRDROP_LEN,
        ),
        accounts[1].key@ == token_program_id_bytes(),
    ensures
        start_airdrop_failure(program_id, accounts) is None,
{
}

/// An accepted `StartAirdrop` sends the token program the instruction that makes the
/// program's authority the owner of the deposit (account 3) in place of the holder
/// (account 0), who signs it, and hands it the deposit, the holder and the token program.
pub proof fn lemma_start_call_hands_deposit_to_authority(program_id: Seq<u8>, accounts: Seq<AccountView>, call: TokenCall)
    requires
        start_airdrop_failure(program_id, accounts) is None,
        is_start_call(program_id, accounts, call),
    ensures
        call.instruction == set_authority_instruction(
            accounts[1].key@,
            accounts[3].key@,
            spec_authority(program_id)->Some_0.0,
            AuthorityType::AccountOwner,
            accounts[0].key@,
            seq![accounts[0].key@],
        ),
        call.accounts@ == seq![3usize, 0, 1],
        call.signer_bump is None,
{
}

/// A `FinishAirdrop` is never refused for lack of funds: a deposit that has been emptied
/// can still be finished.
pub proof fn lemma_finish_never_refuses_for_funds(program_id: Seq<u8>, accounts: Seq<AccountView>)
    ensures
        finish_airdrop_failure(program_id, accounts) != Some(ProgramError::InsufficientFunds),
{
}

/// A `FinishAirdrop` signed by the holder recorded in the airdrop account, with an
/// initialized deposit holding any amount (none at all included) and the token program,
/// is accepted.
pub proof fn lemma_finish_accepts_any_deposit_amount(program_id: Seq<u8>, accounts: Seq<AccountView>, amount: u64)
    requires
        spec_authority(program_id) is Some,
        accounts.len() >= 6,
        accounts[0].is_signer,
        token_account(accounts[3].data@) == Some((amount, true)),
        AirdropView::spec_unpack_unchecked(accounts[5].data@) is Ok,
        AirdropView::spec_unpack_unchecked(accounts[5].data@)->Ok_0.withdrawal == accounts[0].key@,
        accounts[1].key@ == token_program_id_bytes(),
    ensures
        finish_airdrop_failure(program_id, accounts) is None,
{
}

/// An accepted `FinishAirdrop` moves the whole amount of the deposit (account 3) to the
/// receiver (account 4) and then closes the deposit in favour of the holder (account 0),
/// both signed by the program's authority.
pub proof fn lemma_finish_empties_deposit_to_receiver(
    program_id: Seq<u8>,
    accounts: Seq<AccountView>,
    amount: u64,
    transfer: TokenCall,
    close: TokenCall,
)
    requires
        finish_airdrop_failure(program_id, accounts) is None,
        token_account(accounts[3].data@) == Some((amount, true)),
        is_finish_calls(program_id, accounts, transfer, close),
    ensures
        transfer.instruction == transfer_instruction(
            accounts[1].key@,
            accounts[3].key@,
            accounts[4].key@,
            spec_authority(program_id)->Some_0.0,
            seq![spec_authority(program_id)->Some_0.0],
            amount,
        ),
        close.instruction == close_account_instruction(
            accounts[1].key@,
            accounts[3].key@,
            accounts[0].key@,
            spec_authority(program_id)->Some_0.0,
            seq![spec_authority(program_id)->Some_0.0],
        ),
        transfer.signer_bump == Some(spec_authority(program_id)->Some_0.1),
        close.signer_bump == Some(spec_authority(program_id)->Some_0.1),
{
}

/// An accepted `TakeAirdrop` was signed by the taker (account 0) and moves exactly the
/// amount that the instruction carries, whatever it is, from the deposit (account 3) to
/// the taker's token account (account 5), signed by the program's authority.
pub proof fn lemma_take_transfers_requested_amount(
    program_id: Seq<u8>,
    accounts: Seq<AccountView>,
    amount: u64,
    call: TokenCall,
)
    requires
        take_airdrop_failure(program_id, accounts) is None,
        is_take_call(program_id, accounts, amount, call),
    ensures
        accounts.len() >= 6,
        accounts[0].is_signer,
        call.action@ is Transfer,
        call.action@->Transfer_amount == amount,
        call.instruction == transfer_instruction(
            accounts[1].key@,
            accounts[3].key@,
            accounts[5].key@,
            spec_authority(program_id)->Some_0.0,
            seq![spec_authority(program_id)->Some_0.0],
            amount,
        ),
        call.signer_bump == Some(spec_authority(program_id)->Some_0.1),
{
}

/// An accepted `StartAirdrop` was signed by the holder, read the rent sysvar, found an
/// initialized deposit holding tokens and an airdrop account exempt from rent, and names
/// the token program.
pub proof fn lemma_start_accepted_checks(program_id: Seq<u8>, accounts: Seq<AccountView>)
    requires
        start_airdrop_failure(program_id, accounts) is None,
    ensures
        spec_authority(program_id) is Some,
        accounts.len() >= 5,
        accounts[0].is_signer,
        accounts[2].key@ == rent_sysvar_id_bytes(),
        rent_sysvar(accounts[2].key@, accounts[2].data@) is Some,
        token_account(accounts[3].data@) is Some,
        token_account(accounts[3].data@)->Some_0.1,
        token_account(accounts[3].data@)->Some_0.0 > 0,
        accounts[4].lamports >= rent_minimum_balance(
            rent_sysvar(accounts[2].key@, accounts[2].data@)->Some_0,
            AIRDROP_LEN,
        ),
        accounts[1].key@ == token_program_id_bytes(),
{
}

/// An accepted `FinishAirdrop` was signed by the holder recorded in the airdrop account,
/// found an initialized deposit, and names the token program.
pub proof fn lemma_finish_accepted_checks(program_id: Seq<u8>, accounts: Seq<AccountView>)
    requires
        finish_airdrop_failure(program_id, accounts) is None,
    ensures
        spec_authority(program_id) is Some,
        accounts.len() >= 6,
        accounts[0].is_signer,
        token_account(accounts[3].data@) is Some,
        token_account(accounts[3].data@)->Some_0.1,
        AirdropView::spec_unpack_unchecked(accounts[5].data@) is Ok,
        AirdropView::spec_unpack_unchecked(accounts[5].data@)->Ok_0.withdrawal == accounts[0].key@,
        accounts[1].key@ == token_program_id_bytes(),
{
}

/// A `TakeAirdrop` is accepted exactly when the authority address exists, six accounts
/// are given, the taker signs and account 1 is the token program.
pub proof fn lemma_take_accepted_exactly(program_id: Seq<u8>, accounts: Seq<AccountView>)
    ensures
        (take_airdrop_failure(program_id, accounts) is None) == (spec_authority(program_id) is Some
            && accounts.len() >= 6 && accounts[0].is_signer && accounts[1].key@ == token_program_id_bytes()),
{
}

} // verus!
