//! The calls that the programs make into the Solana runtime library and the token
//! program's library. The contracts in this file are trusted, not proved: each states
//! what the called function's source shows.
use crate::address::Address;
use crate::client::AccountMetaView;
use solana_program::instruction::AccountMeta;
use solana_program::instruction::Instruction as RuntimeInstruction;
use solana_program::program_pack::{IsInitialized, Pack};
use solana_program::pubkey::Pubkey;
use solana_program::rent::Rent;
use solana_program::sysvar::Sysvar;
use std::str::FromStr;
use vstd::bytes::*;
use vstd::prelude::*;

verus! {

/// A runtime instruction: a program to call, the accounts it is handed and its data.
#[verifier::external_type_specification]
#[verifier::external_body]
pub struct ExInstruction(RuntimeInstruction);

/// The rent parameters that the rent sysvar account holds.
#[verifier::external_type_specification]
#[verifier::external_body]
pub struct ExRent(Rent);

/// The address of the token program (`TokenkegQfeZyiNwAJbNbGKPFXCWuBvf9Ss623VQ5DA`).
pub open spec fn token_program_id_bytes() -> Seq<u8> {
    seq![
        6u8, 221, 246, 225, 215, 101, 161, 147, 217, 203, 225, 70, 206, 235, 121, 172,
        28, 180, 133, 237, 95, 91, 55, 145, 58, 140, 245, 133, 126, 255, 0, 169,
    ]
}

/// The address of the rent sysvar (`SysvarRent111111111111111111111111111111111`).
pub open spec fn rent_sysvar_id_bytes() -> Seq<u8> {
    seq![
        6u8, 167, 213, 23, 25, 44, 92, 81, 33, 140, 201, 76, 61, 74, 241, 127,
        88, 218, 238, 8, 155, 161, 253, 68, 227, 219, 217, 138, 0, 0, 0, 0,
    ]
}

/// The address that the token program's library declares as its id.
#[verifier::external_body]
pub(crate) fn token_program_id() -> (r: Address)
    ensures
        r@ == token_program_id_bytes(),
{
    Address(spl_token::id().to_bytes())
}

/// The address that the runtime library declares as the rent sysvar's id.
#[verifier::external_body]
pub(crate) fn rent_sysvar_id() -> (r: Address)
    ensures
        r@ == rent_sysvar_id_bytes(),
{
    Address(solana_program::sysvar::rent::id().to_bytes())
}

/// The program-derived address and bump seed that the runtime library finds for one seed
/// and a program id, if it finds one.
pub uninterp spec fn program_address(seed: Seq<u8>, program_id: Seq<u8>) -> Option<(Seq<u8>, u8)>;

/// `Pubkey::try_find_program_address` with the single seed `seed`; its result is named
/// [`program_address`]. The hashing and curve test behind it are not stated.
#[verifier::external_body]
pub(crate) fn find_program_address(seed: &[u8], program_id: &Address) -> (r: Option<(Address, u8)>)
    ensures
        match r {
            Some((a, bump)) => program_address(seed@, program_id@) == Some((a@, bump)),
            None => program_address(seed@, program_id@) is None,
        },
{
    Pubkey::try_find_program_address(&[seed], &Pubkey::new_from_array(program_id.0)).map(
        |(k, bump)| (Address(k.to_bytes()), bump),
    )
}

/// What `Rent::from_account_info` reads from an account with this key and data.
pub uninterp spec fn rent_sysvar(key: Seq<u8>, data: Seq<u8>) -> Option<Rent>;

/// The number of bytes that a rent value takes: its rate (`u64`), its exemption
/// threshold (`f64`) and its burn percentage (`u8`).
pub const RENT_ENCODED_LEN: usize = 17;

/// `Rent::from_account_info` on an account with the given key and data (its other
/// fields are not read). Its result is named [`rent_sysvar`]. As its source shows, it
/// gives a value exactly when the key is the rent sysvar's id and the data holds the 17
/// bytes of a rent value (bytes after them are ignored), and the rate is the
/// little-endian `u64` of the first eight bytes. The threshold, a floating point number,
/// is not stated.
#[verifier::external_body]
pub(crate) fn sysvar_rent(key: &Address, data: &[u8]) -> (r: Option<Rent>)
    ensures
        r == rent_sysvar(key@, data@),
        (r is Some) == (key@ == rent_sysvar_id_bytes() && data@.len() >= RENT_ENCODED_LEN),
        r is Some ==> rent_rate(r->Some_0) == spec_u64_from_le_bytes(data@.subrange(0, 8)),
{
    let key = Pubkey::new_from_array(key.0);
    let owner = Pubkey::default();
    let mut lamports: u64 = 0;
    let mut bytes = data.to_vec();
    let info = solana_program::account_info::AccountInfo::new(
        &key, false, false, &mut lamports, &mut bytes, &owner, false, 0,
    );
    Rent::from_account_info(&info).ok()
}

/// The `lamports_per_byte_year` field of a rent value.
pub uninterp spec fn rent_rate(rent: Rent) -> u64;

/// Reads the `lamports_per_byte_year` field of `rent`, named [`rent_rate`].
#[verifier::external_body]
pub(crate) fn rent_lamports_per_byte_year(rent: &Rent) -> (r: u64)
    ensures
        r == rent_rate(*rent),
{
    rent.lamports_per_byte_year
}

/// The overhead in bytes that the runtime adds to an account's data length when it
/// charges rent.
pub const ACCOUNT_STORAGE_OVERHEAD: u64 = 128;

/// What `Rent::minimum_balance` gives for a data length.
pub uninterp spec fn rent_minimum_balance(rent: Rent, data_len: usize) -> u64;

/// `Rent::minimum_balance`: the balance an account of `data_len` bytes needs to be exempt
/// from rent. Its source adds `ACCOUNT_STORAGE_OVERHEAD` to `data_len` and multiplies by
/// the rate, so the call is only made where the sum and the product fit in a `u64`. The result, a floating
/// point product turned back into an integer, is named [`rent_minimum_balance`] and not
/// stated further.
#[verifier::external_body]
pub(crate) fn minimum_balance(rent: &Rent, data_len: usize) -> (r: u64)
    requires
        ACCOUNT_STORAGE_OVERHEAD + data_len <= u64::MAX,
        (ACCOUNT_STORAGE_OVERHEAD + data_len) * rent_rate(*rent) <= u64::MAX,
    ensures
        r == rent_minimum_balance(*rent, data_len),
{
    rent.minimum_balance(data_len)
}

/// The size of a token account.
pub const TOKEN_ACCOUNT_LEN: usize = 165;

/// Whether the four bytes at `start` are the tag of an optional field of a token account:
/// 0 or 1 as a little-endian `u32`.
pub open spec fn is_option_tag(data: Seq<u8>, start: int) -> bool {
    data[start] <= 1 && data[start + 1] == 0 && data[start + 2] == 0 && data[start + 3] == 0
}

/// What reading a token account gives: its amount and whether it is initialized. The
/// account must have the size of one, valid tags on its optional delegate, native amount
/// and close authority, and a state byte (byte 108) of at most 2; the amount is read
/// little-endian from bytes 64 to 72 and the account is initialized when its state byte
/// is not zero.
pub open spec fn token_account(data: Seq<u8>) -> Option<(u64, bool)> {
    if data.len() == TOKEN_ACCOUNT_LEN && is_option_tag(data, 72) && data[108] <= 2
        && is_option_tag(data, 109) && is_option_tag(data, 129) {
        Some((spec_u64_from_le_bytes(data.subrange(64, 72)), data[108] != 0))
    } else {
        None
    }
}

/// `Account::unpack_unchecked` of the token program, giving the account's amount and
/// whether it is initialized, as [`token_account`] states from the source's field layout
/// (mint 32, owner 32, amount 8, delegate 36, state 1, native amount 12, delegated amount
/// 8, close authority 36 bytes). Every refusal in that source is `InvalidAccountData`.
#[verifier::external_body]
pub(crate) fn token_account_unpack_unchecked(data: &[u8]) -> (r: Option<(u64, bool)>)
    ensures
        r == token_account(data@),
{
    spl_token::state::Account::unpack_unchecked(data).ok().map(|a| (a.amount, a.is_initialized()))
}

/// The kinds of authority that the token program's `SetAuthority` instruction changes.
#[derive(Clone, Copy, Debug, PartialEq, Eq, Structural)]
pub enum AuthorityType {
    MintTokens,
    FreezeAccount,
    AccountOwner,
    CloseAccount,
}

/// The instruction that `spl_token::instruction::set_authority` builds.
pub uninterp spec fn set_authority_instruction(
    token_program: Seq<u8>,
    owned: Seq<u8>,
    new_authority: Seq<u8>,
    authority_type: AuthorityType,
    owner: Seq<u8>,
    signers: Seq<Seq<u8>>,
) -> RuntimeInstruction;

/// `spl_token::instruction::set_authority` with a new authority. As its source shows it
/// fails exactly when `token_program` is not the token program's id; the instruction it
/// builds is named [`set_authority_instruction`].
#[verifier::external_body]
pub(crate) fn token_set_authority(
    token_program: &Address,
    owned: &Address,
    new_authority: &Address,
    authority_type: AuthorityType,
    owner: &Address,
    signers: &[Address],
) -> (r: Option<RuntimeInstruction>)
    ensures
        r is Some <==> token_program@ == token_program_id_bytes(),
        r matches Some(ix) ==> ix == set_authority_instruction(
            token_program@,
            owned@,
            new_authority@,
            authority_type,
            owner@,
            signers@.map_values(|a: Address| a@),
        ),
{
    let kind = match authority_type {
        AuthorityType::MintTokens => spl_token::instruction::AuthorityType::MintTokens,
        AuthorityType::FreezeAccount => spl_token::instruction::AuthorityType::FreezeAccount,
        AuthorityType::AccountOwner => spl_token::instruction::AuthorityType::AccountOwner,
        AuthorityType::CloseAccount => spl_token::instruction::AuthorityType::CloseAccount,
    };
    let signers: Vec<Pubkey> = signers.iter().map(|a| Pubkey::new_from_array(a.0)).collect();
    let signer_refs: Vec<&Pubkey> = signers.iter().collect();
    let new_authority = Pubkey::new_from_array(new_authority.0);
    spl_token::instruction::set_authority(&Pubkey::new_from_array(token_program.0),
        &Pubkey::new_from_array(owned.0), Some(&new_authority), kind,
        &Pubkey::new_from_array(owner.0), &signer_refs).ok()
}

/// The instruction that `spl_token::instruction::transfer` builds.
pub uninterp spec fn transfer_instruction(
    token_program: Seq<u8>,
    source: Seq<u8>,
    destination: Seq<u8>,
    authority: Seq<u8>,
    signers: Seq<Seq<u8>>,
    amount: u64,
) -> RuntimeInstruction;

/// `spl_token::instruction::transfer`. As its source shows it fails exactly when
/// `token_program` is not the token program's id; the instruction it builds is named
/// [`transfer_instruction`].
#[verifier::external_body]
pub(crate) fn token_transfer(
    token_program: &Address,
    source: &Address,
    destination: &Address,
    authority: &Address,
    signers: &[Address],
    amount: u64,
) -> (r: Option<RuntimeInstruction>)
    ensures
        r is Some <==> token_program@ == token_program_id_bytes(),
        r matches Some(ix) ==> ix == transfer_instruction(
            token_program@,
            source@,
            destination@,
            authority@,
            signers@.map_values(|a: Address| a@),
            amount,
        ),
{
    let signers: Vec<Pubkey> = signers.iter().map(|a| Pubkey::new_from_array(a.0)).collect();
    let signer_refs: Vec<&Pubkey> = signers.iter().collect();
    spl_token::instruction::transfer(&Pubkey::new_from_array(token_program.0),
        &Pubkey::new_from_array(source.0), &Pubkey::new_from_array(destination.0),
        &Pubkey::new_from_array(authority.0), &signer_refs, amount).ok()
}

/// The instruction that `spl_token::instruction::close_account` builds.
pub uninterp spec fn close_account_instruction(
    token_program: Seq<u8>,
    account: Seq<u8>,
    destination: Seq<u8>,
    owner: Seq<u8>,
    signers: Seq<Seq<u8>>,
) -> RuntimeInstruction;

/// `spl_token::instruction::close_account`. As its source shows it fails exactly when
/// `token_program` is not the token program's id; the instruction it builds is named
/// [`close_account_instruction`].
#[verifier::external_body]
pub(crate) fn token_close_account(
    token_program: &Address,
    account: &Address,
    destination: &Address,
    owner: &Address,
    signers: &[Address],
) -> (r: Option<RuntimeInstruction>)
    ensures
        r is Some <==> token_program@ == token_program_id_bytes(),
        r matches Some(ix) ==> ix == close_account_instruction(
            token_program@,
            account@,
            destination@,
            owner@,
            signers@.map_values(|a: Address| a@),
        ),
{
    let signers: Vec<Pubkey> = signers.iter().map(|a| Pubkey::new_from_array(a.0)).collect();
    let signer_refs: Vec<&Pubkey> = signers.iter().collect();
    spl_token::instruction::close_account(&Pubkey::new_from_array(token_program.0),
        &Pubkey::new_from_array(account.0), &Pubkey::new_from_array(destination.0),
        &Pubkey::new_from_array(owner.0), &signer_refs).ok()
}

/// The instruction that `spl_token::instruction::initialize_account` builds.
pub uninterp spec fn initialize_account_instruction(
    token_program: Seq<u8>,
    account: Seq<u8>,
    mint: Seq<u8>,
    owner: Seq<u8>,
) -> RuntimeInstruction;

/// `spl_token::instruction::initialize_account`. As its source shows it fails exactly
/// when `token_program` is not the token program's id; the instruction it builds is
/// named [`initialize_account_instruction`].
#[verifier::external_body]
pub(crate) fn token_initialize_account(
    token_program: &Address,
    account: &Address,
    mint: &Address,
    owner: &Address,
) -> (r: Option<RuntimeInstruction>)
    ensures
        r is Some <==> token_program@ == token_program_id_bytes(),
        r matches Some(ix) ==> ix == initialize_account_instruction(
            token_program@,
            account@,
            mint@,
            owner@,
        ),
{
    spl_token::instruction::initialize_account(&Pubkey::new_from_array(token_program.0),
        &Pubkey::new_from_array(account.0), &Pubkey::new_from_array(mint.0),
        &Pubkey::new_from_array(owner.0)).ok()
}

/// The instruction that `system_instruction::create_account` builds.
pub uninterp spec fn create_account_instruction(
    from: Seq<u8>,
    to: Seq<u8>,
    lamports: u64,
    space: u64,
    owner: Seq<u8>,
) -> RuntimeInstruction;

/// `system_instruction::create_account`, which always builds an instruction; it is named
/// [`create_account_instruction`].
#[verifier::external_body]
pub(crate) fn system_create_account(
    from: &Address,
    to: &Address,
    lamports: u64,
    space: u64,
    owner: &Address,
) -> (r: RuntimeInstruction)
    ensures
        r == create_account_instruction(from@, to@, lamports, space, owner@),
{
    solana_program::system_instruction::create_account(&Pubkey::new_from_array(from.0),
        &Pubkey::new_from_array(to.0), lamports, space, &Pubkey::new_from_array(owner.0))
}

/// The instruction that `RuntimeInstruction::new_with_bytes` builds from a program id, data and
/// account metas (each as its key, whether it signs and whether it is writable).
pub uninterp spec fn instruction_with_bytes(
    program_id: Seq<u8>,
    data: Seq<u8>,
    accounts: Seq<(Seq<u8>, bool, bool)>,
) -> RuntimeInstruction;

/// `RuntimeInstruction::new_with_bytes`; the instruction it builds is named
/// [`instruction_with_bytes`].
#[verifier::external_body]
pub(crate) fn new_instruction(program_id: &Address, data: &[u8], accounts: &[AccountMetaView]) -> (r: RuntimeInstruction)
    ensures
        r == instruction_with_bytes(
            program_id@,
            data@,
            accounts@.map_values(|m: AccountMetaView| (m.pubkey@, m.is_signer, m.is_writable)),
        ),
{
    let metas: Vec<AccountMeta> = accounts.iter().map(|m| AccountMeta {
        pubkey: Pubkey::new_from_array(m.pubkey.0),
        is_signer: m.is_signer,
        is_writable: m.is_writable,
    }).collect();
    RuntimeInstruction::new_with_bytes(Pubkey::new_from_array(program_id.0), data, metas)
}

/// What `Pubkey::from_str` reads from a base58 text.
pub uninterp spec fn address_from_base58(text: Seq<char>) -> Option<Seq<u8>>;

/// The longest text that `Pubkey::from_str` reads.
pub const MAX_BASE58_LEN: usize = 44;

/// `Pubkey::from_str`; what it reads is named [`address_from_base58`]. As its source
/// shows, a text longer than [`MAX_BASE58_LEN`] is refused. The base58 decoding is not
/// stated.
#[verifier::external_body]
pub(crate) fn parse_address(text: &str) -> (r: Option<Address>)
    ensures
        match r {
            Some(a) => address_from_base58(text@) == Some(a@),
            None => address_from_base58(text@) is None,
        },
        text@.len() > MAX_BASE58_LEN ==> r is None,
{
    Pubkey::from_str(text).ok().map(|k| Address(k.to_bytes()))
}

/// What `serde_json` reads from a text as a list of bytes: a JSON array of integers from
/// 0 to 255.
pub uninterp spec fn json_byte_array(text: Seq<u8>) -> Option<Seq<u8>>;

/// `serde_json::from_slice::<Vec<u8>>`; what it reads is named [`json_byte_array`]. The
/// JSON grammar behind it is not stated.
#[verifier::external_body]
pub(crate) fn parse_json_bytes(text: &[u8]) -> (r: Option<Vec<u8>>)
    ensures
        match r {
            Some(b) => json_byte_array(text@) == Some(b@),
            None => json_byte_array(text@) is None,
        },
{
    serde_json::from_slice::<Vec<u8>>(text).ok()
}

} // verus!
