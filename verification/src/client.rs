//! The instructions that the command-line client sends.
use crate::address::Address;
use crate::error::ProgramError;
use crate::instruction::Instruction;
use crate::processor::{program_authority, spec_authority};
use crate::runtime::{
    json_byte_array, parse_json_bytes,
    create_account_instruction, initialize_account_instruction, instruction_with_bytes,
    new_instruction, rent_sysvar_id, rent_sysvar_id_bytes, system_create_account,
    token_initialize_account, token_program_id, token_program_id_bytes, token_transfer,
    transfer_instruction,
};
use solana_program::instruction::Instruction as RuntimeInstruction;
use vstd::prelude::*;

verus! {

/// An account that an instruction names: its key, whether it must sign and whether the
/// instruction may write it.
#[derive(Clone, Copy, Debug, PartialEq, Eq)]
pub struct AccountMetaView {
    pub pubkey: Address,
    pub is_signer: bool,
    pub is_writable: bool,
}

impl AccountMetaView {
    /// An account that the instruction may write.
    pub fn writable(pubkey: Address, is_signer: bool) -> (r: AccountMetaView)
        ensures
            r.pubkey == pubkey && r.is_signer == is_signer && r.is_writable,
    {
        AccountMetaView { pubkey, is_signer, is_writable: true }
    }

    /// An account that the instruction only reads.
    pub fn readonly(pubkey: Address, is_signer: bool) -> (r: AccountMetaView)
        ensures
            r.pubkey == pubkey && r.is_signer == is_signer && !r.is_writable,
    {
        AccountMetaView { pubkey, is_signer, is_writable: false }
    }

    /// The key, signing and writing flags of the account.
    pub open spec fn spec_triple(self) -> (Seq<u8>, bool, bool) {
        (self.pubkey@, self.is_signer, self.is_writable)
    }
}

/// Builds an instruction to `program` from an instruction of the faucet and its accounts.
fn faucet_instruction(program: &Address, ix: Instruction, metas: Vec<AccountMetaView>) -> (r: RuntimeInstruction)
    ensures
        r == instruction_with_bytes(
            program@,
            ix.spec_encode(),
            metas@.map_values(|m: AccountMetaView| m.spec_triple()),
        ),
{
    let data = ix.encode();
    let r = new_instruction(program, data.as_slice(), metas.as_slice());
    assert(metas@.map_values(|m: AccountMetaView| (m.pubkey@, m.is_signer, m.is_writable))
        =~= metas@.map_values(|m: AccountMetaView| m.spec_triple()));
    r
}

/// The `StartAirdrop` instruction to `program`: signed by the holder, with the token
/// program, the rent sysvar, the deposit and the airdrop data account.
pub fn start_airdrop_instruction(program: &Address, holder: &Address, deposit: &Address, airdrop: &Address) -> (r: RuntimeInstruction)
    ensures
        r == instruction_with_bytes(
            program@,
            Instruction::StartAirdrop.spec_encode(),
            seq![
                (holder@, true, false),
                (token_program_id_bytes(), false, false),
                (rent_sysvar_id_bytes(), false, false),
                (deposit@, false, true),
                (airdrop@, false, true),
            ],
        ),
{
    let metas: Vec<AccountMetaView> = vec![
        AccountMetaView::readonly(*holder, true),
        AccountMetaView::readonly(token_program_id(), false),
        AccountMetaView::readonly(rent_sysvar_id(), false),
        AccountMetaView::writable(*deposit, false),
        AccountMetaView::writable(*airdrop, false),
    ];
    let ghost triples = metas@.map_values(|m: AccountMetaView| m.spec_triple());
    let r = faucet_instruction(program, Instruction::StartAirdrop, metas);
    assert(triples =~= seq![
        (holder@, true, false),
        (token_program_id_bytes(), false, false),
        (rent_sysvar_id_bytes(), false, false),
        (deposit@, false, true),
        (airdrop@, false, true),
    ]);
    r
}

/// The `FinishAirdrop` instruction to `program`: signed by the holder, with the token
/// program, the deposit's owner (the program's authority address), the deposit, the
/// receiver of what is left of it, and the airdrop data account. It cannot be built when
/// the runtime finds no authority address for the program.
pub fn finish_airdrop_instruction(
    program: &Address,
    holder: &Address,
    deposit: &Address,
    receiver: &Address,
    airdrop: &Address,
) -> (r: Result<RuntimeInstruction, ProgramError>)
    ensures
        match r {
            Ok(ix) => spec_authority(program@) is Some && ix == instruction_with_bytes(
                program@,
                Instruction::FinishAirdrop.spec_encode(),
                seq![
                    (holder@, true, false),
                    (token_program_id_bytes(), false, false),
                    (spec_authority(program@)->Some_0.0, false, false),
                    (deposit@, false, true),
                    (receiver@, false, true),
                    (airdrop@, false, true),
                ],
            ),
            Err(e) => spec_authority(program@) is None && e == ProgramError::InvalidSeeds,
        },
{
    let (authority, _bump) = program_authority(program)?;
    let metas: Vec<AccountMetaView> = vec![
        AccountMetaView::readonly(*holder, true),
        AccountMetaView::readonly(token_program_id(), false),
        AccountMetaView::readonly(authority, false),
        AccountMetaView::writable(*deposit, false),
        AccountMetaView::writable(*receiver, false),
        AccountMetaView::writable(*airdrop, false),
    ];
    let ghost triples = metas@.map_values(|m: AccountMetaView| m.spec_triple());
    let r = faucet_instruction(program, Instruction::FinishAirdrop, metas);
    assert(triples =~= seq![
        (holder@, true, false),
        (token_program_id_bytes(), false, false),
        (authority@, false, false),
        (deposit@, false, true),
        (receiver@, false, true),
        (airdrop@, false, true),
    ]);
    Ok(r)
}

/// The `TakeAirdrop` instruction to `program`: signed by the taker, with the token
/// program, the deposit's owner (the program's authority address), the deposit, the
/// airdrop data account and the taker's token account, which receives `amount` tokens.
/// It cannot be built when the runtime finds no authority address for the program.
pub fn take_airdrop_instruction(
    program: &Address,
    taker: &Address,
    deposit: &Address,
    airdrop: &Address,
    taker_token: &Address,
    amount: u64,
) -> (r: Result<RuntimeInstruction, ProgramError>)
    ensures
        match r {
            Ok(ix) => spec_authority(program@) is Some && ix == instruction_with_bytes(
                program@,
                (Instruction::TakeAirdrop { amount }).spec_encode(),
                seq![
                    (taker@, true, false),
                    (token_program_id_bytes(), false, false),
                    (spec_authority(program@)->Some_0.0, false, false),
                    (deposit@, false, true),
                    (airdrop@, false, true),
                    (taker_token@, false, true),
                ],
            ),
            Err(e) => spec_authority(program@) is None && e == ProgramError::InvalidSeeds,
        },
{
    let (authority, _bump) = program_authority(program)?;
    let metas: Vec<AccountMetaView> = vec![
        AccountMetaView::readonly(*taker, true),
        AccountMetaView::readonly(token_program_id(), false),
        AccountMetaView::readonly(authority, false),
        AccountMetaView::writable(*deposit, false),
        AccountMetaView::writable(*airdrop, false),
        AccountMetaView::writable(*taker_token, false),
    ];
    let ghost triples = metas@.map_values(|m: AccountMetaView| m.spec_triple());
    let r = faucet_instruction(program, Instruction::TakeAirdrop { amount }, metas);
    assert(triples =~= seq![
        (taker@, true, false),
        (token_program_id_bytes(), false, false),
        (authority@, false, false),
        (deposit@, false, true),
        (airdrop@, false, true),
        (taker_token@, false, true),
    ]);
    Ok(r)
}

/// What the client needs to start an airdrop: the faucet program, the payer who signs,
/// the payer's token account the tokens come from and its mint, the new deposit and
/// airdrop data accounts, the amount of tokens, and for each new account its size and
/// the balance that makes it exempt from rent.
pub struct StartRequest {
    pub program: Address,
    pub payer: Address,
    pub source: Address,
    pub mint: Address,
    pub deposit: Address,
    pub airdrop: Address,
    pub amount: u64,
    pub deposit_space: u64,
    pub deposit_rent: u64,
    pub airdrop_space: u64,
    pub airdrop_rent: u64,
}

/// The instructions of the client's start transaction, in order: create the deposit
/// account, initialize it as a token account of the mint owned by the payer, move the
/// amount into it, create the airdrop data account, and `StartAirdrop`. The new accounts
/// are given to the faucet program, and the token instructions are addressed to the
/// faucet program too, so building them fails unless the faucet program is the token
/// program.
pub fn start_airdrop_transaction(req: &StartRequest) -> (r: Result<Vec<RuntimeInstruction>, ProgramError>)
    ensures
        r is Ok <==> req.program@ == token_program_id_bytes(),
        r matches Ok(ixs) ==> ixs@ == seq![
            create_account_instruction(req.payer@, req.deposit@, req.deposit_rent, req.deposit_space, req.program@),
            initialize_account_instruction(req.program@, req.deposit@, req.mint@, req.payer@),
            transfer_instruction(req.program@, req.source@, req.deposit@, req.payer@, Seq::empty(), req.amount),
            create_account_instruction(req.payer@, req.airdrop@, req.airdrop_rent, req.airdrop_space, req.program@),
            instruction_with_bytes(
                req.program@,
                Instruction::StartAirdrop.spec_encode(),
                seq![
                    (req.payer@, true, false),
                    (token_program_id_bytes(), false, false),
                    (rent_sysvar_id_bytes(), false, false),
                    (req.deposit@, false, true),
                    (req.airdrop@, false, true),
                ],
            ),
        ],
        r matches Err(e) ==> e == ProgramError::IncorrectProgramId,
{
    let create_deposit = system_create_account(&req.payer, &req.deposit, req.deposit_rent, req.deposit_space, &req.program);
    let initialize_deposit = match token_initialize_account(&req.program, &req.deposit, &req.mint, &req.payer) {
        Some(ix) => ix,
        None => return Err(ProgramError::IncorrectProgramId),
    };
    let no_signers: Vec<Address> = Vec::new();
    assert(no_signers@.map_values(|a: Address| a@) =~= Seq::<Seq<u8>>::empty());
    let transfer_to_deposit = match token_transfer(&req.program, &req.source, &req.deposit, &req.payer, no_signers.as_slice(), req.amount) {
        Some(ix) => ix,
        None => return Err(ProgramError::IncorrectProgramId),
    };
    let create_airdrop = system_create_account(&req.payer, &req.airdrop, req.airdrop_rent, req.airdrop_space, &req.program);
    let start = start_airdrop_instruction(&req.program, &req.payer, &req.deposit, &req.airdrop);
    let mut ixs: Vec<RuntimeInstruction> = Vec::new();
    ixs.push(create_deposit);
    ixs.push(initialize_deposit);
    ixs.push(transfer_to_deposit);
    ixs.push(create_airdrop);
    ixs.push(start);
    Ok(ixs)
}

/// The bytes of the payer's keypair, read from the text of a keypair file: a JSON array
/// of byte values.
pub fn keypair_bytes(text: &[u8]) -> (r: Option<Vec<u8>>)
    ensures
        match r {
            Some(b) => json_byte_array(text@) == Some(b@),
            None => json_byte_array(text@) is None,
        },
{
    parse_json_bytes(text)
}

} // verus!
