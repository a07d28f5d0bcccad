use vstd::bytes::*;
use vstd::prelude::*;
use vstd::slice::slice_subrange;

verus! {

/// The instructions of the faucet program.
///
/// On the wire an instruction is its variant's position as a little-endian `u32`,
/// followed by its fields (a `u64` amount is eight little-endian bytes).
#[derive(Clone, Copy, Debug, PartialEq, Eq, Structural)]
pub enum Instruction {
    /// Hands a token deposit over to the faucet and records the airdrop.
    ///
    /// Accounts: `[signer]` token holder, `[]` token program, `[]` rent sysvar,
    /// `[writable]` token deposit, `[writable]` airdrop data account.
    StartAirdrop,
    /// Returns what is left of the deposit to its holder and closes the airdrop.
    ///
    /// Accounts: `[signer]` token holder, `[]` token program, `[writable]` token deposit,
    /// `[writable]` airdrop data account.
    FinishAirdrop,
    /// Pays `amount` tokens out of the deposit.
    ///
    /// Accounts: `[]` token program, `[writable]` token deposit, `[writable]` receiver.
    TakeAirdrop { amount: u64 },
}

impl Instruction {
    /// The position of the variant in the declaration, which is its tag on the wire.
    pub open spec fn spec_tag(self) -> u32 {
        match self {
            Instruction::StartAirdrop => 0,
            Instruction::FinishAirdrop => 1,
            Instruction::TakeAirdrop { .. } => 2,
        }
    }

    /// The bytes that stand for the instruction.
    pub open spec fn spec_encode(self) -> Seq<u8> {
        match self {
            Instruction::TakeAirdrop { amount } => spec_u32_to_le_bytes(2)
                + spec_u64_to_le_bytes(amount),
            _ => spec_u32_to_le_bytes(self.spec_tag()),
        }
    }

    /// The instruction that `data` starts with, if it starts with one. Bytes after the
    /// instruction are ignored.
    pub open spec fn spec_decode(data: Seq<u8>) -> Option<Instruction> {
        if data.len() < 4 {
            None
        } else {
            let tag: u32 = spec_u32_from_le_bytes(data.subrange(0, 4));
            if tag == 0 {
                Some(Instruction::StartAirdrop)
            } else if tag == 1 {
                Some(Instruction::FinishAirdrop)
            } else if tag == 2 && data.len() >= 12 {
                Some(Instruction::TakeAirdrop { amount: spec_u64_from_le_bytes(data.subrange(4, 12)) })
            } else {
                None
            }
        }
    }

    /// Encodes the instruction.
    pub fn encode(&self) -> (r: Vec<u8>)
        ensures
            r@ == self.spec_encode(),
    {
        match self {
            Instruction::StartAirdrop => u32_to_le_bytes(0),
            Instruction::FinishAirdrop => u32_to_le_bytes(1),
            Instruction::TakeAirdrop { amount } => {
                let mut r = u32_to_le_bytes(2);
                let mut tail = u64_to_le_bytes(*amount);
                r.append(&mut tail);
                r
            },
        }
    }

    /// Decodes the instruction that `data` starts with.
    pub fn decode(data: &[u8]) -> (r: Option<Instruction>)
        ensures
            r == Self::spec_decode(data@),
    {
        if data.len() < 4 {
            return None;
        }
        let tag: u32 = u32_from_le_bytes(slice_subrange(data, 0, 4));
        if tag == 0 {
            Some(Instruction::StartAirdrop)
        } else if tag == 1 {
            Some(Instruction::FinishAirdrop)
        } else if tag == 2 && data.len() >= 12 {
            let amount: u64 = u64_from_le_bytes(slice_subrange(data, 4, 12));
            Some(Instruction::TakeAirdrop { amount })
        } else {
            None
        }
    }
}

/// Decoding gives back every encoded instruction, whatever bytes follow it.
pub proof fn lemma_decode_encode(ix: Instruction, rest: Seq<u8>)
    ensures
        Instruction::spec_decode(ix.spec_encode() + rest) == Some(ix),
{
    lemma_auto_spec_u32_to_from_le_bytes();
    lemma_auto_spec_u64_to_from_le_bytes();
    let e = ix.spec_encode();
    let d = e + rest;
    assert(d.subrange(0, 4) =~= spec_u32_to_le_bytes(ix.spec_tag()));
    if let Instruction::TakeAirdrop { amount } = ix {
        assert(d.subrange(4, 12) =~= spec_u64_to_le_bytes(amount));
    }
}

/// Whatever decodes to an instruction starts with that instruction's encoding.
pub proof fn lemma_encode_decode(data: Seq<u8>)
    requires
        Instruction::spec_decode(data) is Some,
    ensures
        Instruction::spec_decode(data).unwrap().spec_encode()
            =~= data.subrange(0, Instruction::spec_decode(data).unwrap().spec_encode().len() as int),
{
    lemma_auto_spec_u32_to_from_le_bytes();
    lemma_auto_spec_u64_to_from_le_bytes();
    let ix = Instruction::spec_decode(data).unwrap();
    let head = data.subrange(0, 4);
    assert(spec_u32_to_le_bytes(spec_u32_from_le_bytes(head)) == head);
    if let Instruction::TakeAirdrop { amount } = ix {
        let body = data.subrange(4, 12);
        assert(spec_u64_to_le_bytes(spec_u64_from_le_bytes(body)) == body);
        assert(data.subrange(0, 12) =~= head + body);
    }
}

} // verus!
