//! The stamm program, whose one instruction hands the minting authority over the cash,
//! bond and share token mints to the program's authority address.
use crate::address::Address;
use crate::error::{Error, ProgramError};
use crate::processor::{
    next_account, program_authority, spec_authority, AccountView, TokenAction, TokenActionView, TokenCall,
};
use crate::runtime::{
    address_from_base58, parse_address, set_authority_instruction, token_program_id_bytes, AuthorityType,
};
use vstd::bytes::*;
use vstd::prelude::*;
use vstd::slice::slice_subrange;

verus! {

/// The instructions of the stamm program, encoded as their position (a little-endian
/// `u32`).
#[derive(Clone, Copy, Debug, PartialEq, Eq, Structural)]
pub enum Instruction {
    /// Accounts: `[signer]` founder, `[]` token program, `[writable]` cash mint,
    /// `[writable]` bond mint, `[writable]` share mint.
    Genesis,
}

impl Instruction {
    /// The bytes that stand for the instruction.
    pub open spec fn spec_encode(self) -> Seq<u8> {
        spec_u32_to_le_bytes(0)
    }

    /// The instruction that `data` starts with, if it starts with one.
    pub open spec fn spec_decode(data: Seq<u8>) -> Option<Instruction> {
        if data.len() >= 4 && spec_u32_from_le_bytes(data.subrange(0, 4)) == 0 {
            Some(Instruction::Genesis)
        } else {
            None
        }
    }

    /// Encodes the instruction.
    pub fn encode(&self) -> (r: Vec<u8>)
        ensures
            r@ == self.spec_encode(),
    {
        u32_to_le_bytes(0)
    }

    /// Decodes the instruction that `data` starts with.
    pub fn decode(data: &[u8]) -> (r: Option<Instruction>)
        ensures
            r == Self::spec_decode(data@),
    {
        if data.len() >= 4 && u32_from_le_bytes(slice_subrange(data, 0, 4)) == 0 {
            Some(Instruction::Genesis)
        } else {
            None
        }
    }
}

/// Decoding gives back the encoded instruction, whatever bytes follow it.
pub proof fn lemma_decode_encode(ix: Instruction, rest: Seq<u8>)
    ensures
        Instruction::spec_decode(ix.spec_encode() + rest) == Some(ix),
{
    lemma_auto_spec_u32_to_from_le_bytes();
    assert((ix.spec_encode() + rest).subrange(0, 4) =~= spec_u32_to_le_bytes(0));
}

/// Whether the mint at `key` is the one whose address is written as `expected`.
pub open spec fn is_expected_mint(key: Seq<u8>, expected: Seq<char>) -> bool {
    address_from_base58(expected) == Some(key)
}

/// The first check that `Genesis` fails, in the order in which the program makes them, or
/// nothing when it passes them all.
pub open spec fn genesis_failure(
    program_id: Seq<u8>,
    accounts: Seq<AccountView>,
    cash: Seq<char>,
    bond: Seq<char>,
    share: Seq<char>,
) -> Option<ProgramError> {
    if spec_authority(program_id) is None {
        Some(ProgramError::InvalidSeeds)
    } else if accounts.len() < 1 {
        Some(ProgramError::NotEnoughAccountKeys)
    } else if !accounts[0].is_signer {
        Some(ProgramError::MissingRequiredSignature)
    } else if accounts.len() < 3 {
        Some(ProgramError::NotEnoughAccountKeys)
    } else if !is_expected_mint(accounts[2].key@, cash) {
        Some(ProgramError::InvalidInstructionData)
    } else if accounts[1].key@ != token_program_id_bytes() {
        Some(ProgramError::IncorrectProgramId)
    } else if accounts.len() < 4 {
        Some(ProgramError::NotEnoughAccountKeys)
    } else if !is_expected_mint(accounts[3].key@, bond) {
        Some(ProgramError::InvalidInstructionData)
    } else if accounts.len() < 5 {
        Some(ProgramError::NotEnoughAccountKeys)
    } else if !is_expected_mint(accounts[4].key@, share) {
        Some(ProgramError::InvalidInstructionData)
    } else {
        None
    }
}

/// The call that hands the minting authority over the mint at account `i` from the
/// founder (account 0) to the program's authority; the founder signs it.
pub open spec fn is_genesis_call(program_id: Seq<u8>, accounts: Seq<AccountView>, i: int, call: TokenCall) -> bool {
    &&& call.wf()
    &&& call.token_program@ == accounts[1].key@
    &&& call.action@ == (TokenActionView::SetAuthority {
        account: accounts[i].key@,
        new_authority: spec_authority(program_id)->Some_0.0,
        authority_type: AuthorityType::MintTokens,
        owner: accounts[0].key@,
    })
    &&& call.accounts@ == seq![i as usize, 0, 1]
    &&& call.signer_bump is None
}

/// Checks that account `i` is the mint written as `expected` and plans the call that
/// hands its minting authority from the founder to the program's authority.
fn limit_mint(
    accounts: &[AccountView],
    i: usize,
    expected: &str,
    token_program: &Address,
    authority: &Address,
    founder: &Address,
) -> (r: Result<TokenCall, ProgramError>)
    requires
        i >= 2,
        accounts@.len() >= 2,
        *token_program == accounts@[1].key,
        *founder == accounts@[0].key,
    ensures
        match r {
            Ok(call) => i < accounts@.len() && is_expected_mint(accounts@[i as int].key@, expected@)
                && token_program@ == token_program_id_bytes() && call.wf() && call.token_program@
                == accounts@[1].key@ && call.action@ == (TokenActionView::SetAuthority {
                account: accounts@[i as int].key@,
                new_authority: authority@,
                authority_type: AuthorityType::MintTokens,
                owner: accounts@[0].key@,
            }) && call.accounts@ == seq![i, 0, 1] && call.signer_bump is None,
            Err(e) => if i >= accounts@.len() {
                e == ProgramError::NotEnoughAccountKeys
            } else if !is_expected_mint(accounts@[i as int].key@, expected@) {
                e == ProgramError::InvalidInstructionData
            } else {
                token_program@ != token_program_id_bytes() && e == ProgramError::IncorrectProgramId
            },
        },
{
    let mint = next_account(accounts, i)?;
    let same = match parse_address(expected) {
        Some(key) => mint.key.same_as(&key),
        None => false,
    };
    if !same {
        return Err(ProgramError::InvalidInstructionData);
    }
    let action = TokenAction::SetAuthority {
        account: mint.key,
        new_authority: *authority,
        authority_type: AuthorityType::MintTokens,
        owner: *founder,
    };
    match TokenCall::new(*token_program, action, vec![i, 0usize, 1], None) {
        Some(call) => {
            assert(call.accounts@ =~= seq![i, 0, 1]);
            Ok(call)
        },
        None => Err(ProgramError::IncorrectProgramId),
    }
}

/// `Genesis`: the founder (account 0) must sign, account 1 must be the token program, and
/// accounts 2, 3 and 4 must be the cash, bond and share mints whose addresses are written
/// as `cash`, `bond` and `share`. The result is the three calls, one per mint in that
/// order, that hand each mint's minting authority to the program's authority address.
pub fn genesis(program_id: &Address, accounts: &[AccountView], cash: &str, bond: &str, share: &str) -> (r: Result<Vec<TokenCall>, ProgramError>)
    ensures
        match r {
            Ok(calls) => genesis_failure(program_id@, accounts@, cash@, bond@, share@) is None
                && calls@.len() == 3 && forall|i: int|
                0 <= i < 3 ==> #[trigger] is_genesis_call(program_id@, accounts@, i + 2, calls@[i]),
            Err(e) => genesis_failure(program_id@, accounts@, cash@, bond@, share@) == Some(e),
        },
{
    let (authority, _bump) = program_authority(program_id)?;
    let founder = next_account(accounts, 0)?;
    if !founder.is_signer {
        return Err(ProgramError::MissingRequiredSignature);
    }
    let token_program = next_account(accounts, 1)?;
    let cash_call = limit_mint(accounts, 2, cash, &token_program.key, &authority, &founder.key)?;
    let bond_call = limit_mint(accounts, 3, bond, &token_program.key, &authority, &founder.key)?;
    let share_call = limit_mint(accounts, 4, share, &token_program.key, &authority, &founder.key)?;
    let mut calls: Vec<TokenCall> = Vec::new();
    calls.push(cash_call);
    calls.push(bond_call);
    calls.push(share_call);
    assert forall|i: int| 0 <= i < 3 implies #[trigger] is_genesis_call(program_id@, accounts@, i + 2, calls@[i]) by {
        assert(((i + 2) as usize) as int == i + 2);
    }
    Ok(calls)
}

/// The stamm program's entry: decodes the instruction and plans its calls. Data that does not
/// start with an instruction is refused with the program's `MalformedInstruction` error.
pub fn process(program_id: &Address, accounts: &[AccountView], instruction_data: &[u8], cash: &str, bond: &str, share: &str) -> (r: Result<Vec<TokenCall>, ProgramError>)
    ensures
        match Instruction::spec_decode(instruction_data@) {
            None => r is Err && r->Err_0 == ProgramError::Custom(Error::MalformedInstruction.spec_code()),
            Some(Instruction::Genesis) => match r {
                Ok(calls) => genesis_failure(program_id@, accounts@, cash@, bond@, share@) is None
                    && calls@.len() == 3 && forall|i: int|
                    0 <= i < 3 ==> #[trigger] is_genesis_call(program_id@, accounts@, i + 2, calls@[i]),
                Err(e) => genesis_failure(program_id@, accounts@, cash@, bond@, share@) == Some(e),
            },
        },
{
    match Instruction::decode(instruction_data) {
        None => Err(ProgramError::from(Error::MalformedInstruction)),
        Some(Instruction::Genesis) => genesis(program_id, accounts, cash, bond, share),
    }
}

/// An accepted `Genesis` was signed by the founder, names the token program, and hands
/// over exactly the configured mints: accounts 2, 3 and 4 are the mints whose addresses
/// are written as `cash`, `bond` and `share`.
pub proof fn lemma_genesis_only_configured_mints(
    program_id: Seq<u8>,
    accounts: Seq<AccountView>,
    cash: Seq<char>,
    bond: Seq<char>,
    share: Seq<char>,
)
    requires
        genesis_failure(program_id, accounts, cash, bond, share) is None,
    ensures
        accounts.len() >= 5,
        accounts[0].is_signer,
        accounts[1].key@ == token_program_id_bytes(),
        address_from_base58(cash) == Some(accounts[2].key@),
        address_from_base58(bond) == Some(accounts[3].key@),
        address_from_base58(share) == Some(accounts[4].key@),
{
}

/// A planned `Genesis` call sends the token program the instruction that gives the
/// program's authority the minting authority over the mint at account `i`, in place of
/// the founder (account 0), who signs it.
pub proof fn lemma_genesis_call_hands_over_minting(program_id: Seq<u8>, accounts: Seq<AccountView>, i: int, call: TokenCall)
    requires
        is_genesis_call(program_id, accounts, i, call),
    ensures
        call.instruction == set_authority_instruction(
            accounts[1].key@,
            accounts[i].key@,
            spec_authority(program_id)->Some_0.0,
            AuthorityType::MintTokens,
            accounts[0].key@,
            seq![accounts[0].key@],
        ),
        call.signer_bump is None,
{
}

} // verus!
