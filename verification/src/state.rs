use crate::address::Address;
use crate::error::ProgramError;
use vstd::bytes::*;
use vstd::prelude::*;
use vstd::slice::slice_subrange;

verus! {

/// The size of an airdrop data account: the in-memory size of [`Airdrop`].
pub const AIRDROP_LEN: usize = 80;

/// The number of bytes that the encoding of an [`Airdrop`] takes at the front of its account.
pub const AIRDROP_ENCODED_LEN: usize = 73;

/// The record that an airdrop data account holds.
///
/// It is stored as one byte for `is_initialized` (0 or 1), the 32 bytes of `deposit`, the
/// 32 bytes of `withdrawal` and the eight little-endian bytes of `amount`; the rest of the
/// account is left as it is.
#[derive(Clone, Copy, Debug, PartialEq, Eq)]
pub struct Airdrop {
    pub is_initialized: bool,
    /// The token account that holds the tokens handed out.
    pub deposit: Address,
    /// The key that started the airdrop and may finish it.
    pub withdrawal: Address,
    pub amount: u64,
}

/// The value of an [`Airdrop`], with its addresses as byte sequences.
pub struct AirdropView {
    pub is_initialized: bool,
    pub deposit: Seq<u8>,
    pub withdrawal: Seq<u8>,
    pub amount: u64,
}

impl View for Airdrop {
    type V = AirdropView;

    open spec fn view(&self) -> AirdropView {
        AirdropView {
            is_initialized: self.is_initialized,
            deposit: self.deposit@,
            withdrawal: self.withdrawal@,
            amount: self.amount,
        }
    }
}

impl AirdropView {
    /// Whether the addresses have their full length.
    pub open spec fn wf(self) -> bool {
        self.deposit.len() == 32 && self.withdrawal.len() == 32
    }

    /// The bytes that stand for the record.
    pub open spec fn spec_encode(self) -> Seq<u8> {
        seq![if self.is_initialized { 1u8 } else { 0u8 }] + self.deposit + self.withdrawal
            + spec_u64_to_le_bytes(self.amount)
    }

    /// The record that `data` starts with, if it starts with one.
    pub open spec fn spec_decode(data: Seq<u8>) -> Option<AirdropView> {
        if data.len() < AIRDROP_ENCODED_LEN || data[0] > 1 {
            None
        } else {
            Some(
                AirdropView {
                    is_initialized: data[0] == 1,
                    deposit: data.subrange(1, 33),
                    withdrawal: data.subrange(33, 65),
                    amount: spec_u64_from_le_bytes(data.subrange(65, 73)),
                },
            )
        }
    }

    /// What reading an airdrop data account gives: the record it holds, when the account
    /// has the size of one and starts with a record.
    pub open spec fn spec_unpack_unchecked(data: Seq<u8>) -> Result<AirdropView, ProgramError> {
        if data.len() != AIRDROP_LEN {
            Err(ProgramError::InvalidAccountData)
        } else {
            match Self::spec_decode(data) {
                Some(v) => Ok(v),
                None => Err(ProgramError::InvalidAccountData),
            }
        }
    }

    /// The account data after the record is stored into `data`.
    pub open spec fn spec_pack_into(self, data: Seq<u8>) -> Seq<u8> {
        self.spec_encode() + data.subrange(AIRDROP_ENCODED_LEN as int, data.len() as int)
    }
}

impl Airdrop {
    /// Whether the record is marked as set up.
    pub fn is_initialized(&self) -> (r: bool)
        ensures
            r == self.is_initialized,
    {
        self.is_initialized
    }

    /// Reads the record out of an airdrop data account, without regard to whether it is
    /// marked as set up.
    pub fn unpack_unchecked(input: &[u8]) -> (r: Result<Airdrop, ProgramError>)
        ensures
            match r {
                Ok(a) => AirdropView::spec_unpack_unchecked(input@) == Ok::<AirdropView, ProgramError>(a@),
                Err(e) => AirdropView::spec_unpack_unchecked(input@) == Err::<AirdropView, ProgramError>(e),
            },
    {
        if input.len() != AIRDROP_LEN {
            return Err(ProgramError::InvalidAccountData);
        }
        Self::unpack_from_slice(input)
    }

    /// Decodes the record at the front of `input`; bytes after it are ignored.
    pub fn unpack_from_slice(input: &[u8]) -> (r: Result<Airdrop, ProgramError>)
        ensures
            match r {
                Ok(a) => AirdropView::spec_decode(input@) == Some(a@),
                Err(e) => AirdropView::spec_decode(input@) is None && e == ProgramError::InvalidAccountData,
            },
    {
        if input.len() < AIRDROP_ENCODED_LEN || input[0] > 1 {
            return Err(ProgramError::InvalidAccountData);
        }
        let is_initialized = input[0] == 1;
        let deposit = Address::read_from(input, 1);
        let withdrawal = Address::read_from(input, 33);
        let amount: u64 = u64_from_le_bytes(slice_subrange(input, 65, 73));
        let a = Airdrop { is_initialized, deposit, withdrawal, amount };
        assert(a@ == AirdropView::spec_decode(input@).unwrap());
        Ok(a)
    }

    /// The bytes that stand for the record.
    pub fn encode(&self) -> (r: Vec<u8>)
        ensures
            r@ == self@.spec_encode(),
            r@.len() == AIRDROP_ENCODED_LEN,
    {
        let mut r: Vec<u8> = Vec::new();
        r.push(if self.is_initialized { 1u8 } else { 0u8 });
        let mut i: usize = 0;
        while i < 32
            invariant
                i <= 32,
                self.deposit@.len() == 32,
                r@ =~= seq![if self.is_initialized { 1u8 } else { 0u8 }] + self.deposit@.subrange(0, i as int),
            decreases 32 - i,
        {
            r.push(self.deposit.0[i]);
            i = i + 1;
        }
        let mut j: usize = 0;
        while j < 32
            invariant
                j <= 32,
                self.deposit@.len() == 32,
                self.withdrawal@.len() == 32,
                r@ =~= seq![if self.is_initialized { 1u8 } else { 0u8 }] + self.deposit@
                    + self.withdrawal@.subrange(0, j as int),
            decreases 32 - j,
        {
            r.push(self.withdrawal.0[j]);
            j = j + 1;
        }
        let mut tail = u64_to_le_bytes(self.amount);
        r.append(&mut tail);
        assert(r@ =~= self@.spec_encode());
        r
    }

    /// Writes the record at the front of `dst`, which must have room for it; the bytes
    /// after it are left as they were.
    pub fn pack_into_slice(&self, dst: &mut Vec<u8>)
        requires
            old(dst)@.len() >= AIRDROP_ENCODED_LEN,
        ensures
            final(dst)@ == self@.spec_pack_into(old(dst)@),
    {
        let bytes = self.encode();
        let ghost before = dst@;
        let mut i: usize = 0;
        while i < AIRDROP_ENCODED_LEN
            invariant
                i <= AIRDROP_ENCODED_LEN,
                bytes@.len() == AIRDROP_ENCODED_LEN,
                before.len() >= AIRDROP_ENCODED_LEN,
                dst@ =~= bytes@.subrange(0, i as int) + before.subrange(i as int, before.len() as int),
            decreases AIRDROP_ENCODED_LEN - i,
        {
            dst.set(i, bytes[i]);
            i = i + 1;
        }
    }

    /// Stores the record at the front of an airdrop data account; the bytes after it are
    /// left as they were. An account of another size is refused and left unchanged.
    pub fn pack(src: Airdrop, dst: &mut Vec<u8>) -> (r: Result<(), ProgramError>)
        ensures
            old(dst)@.len() != AIRDROP_LEN ==> r == Err::<(), ProgramError>(ProgramError::InvalidAccountData)
                && final(dst)@ == old(dst)@,
            old(dst)@.len() == AIRDROP_LEN ==> r is Ok && final(dst)@ == src@.spec_pack_into(old(dst)@),
    {
        if dst.len() != AIRDROP_LEN {
            return Err(ProgramError::InvalidAccountData);
        }
        src.pack_into_slice(dst);
        Ok(())
    }
}

/// Decoding gives back every encoded record, whatever bytes follow it.
pub proof fn lemma_decode_encode(a: AirdropView, rest: Seq<u8>)
    requires
        a.wf(),
    ensures
        AirdropView::spec_decode(a.spec_encode() + rest) == Some(a),
{
    lemma_auto_spec_u64_to_from_le_bytes();
    let d = a.spec_encode() + rest;
    assert(d.subrange(1, 33) =~= a.deposit);
    assert(d.subrange(33, 65) =~= a.withdrawal);
    assert(d.subrange(65, 73) =~= spec_u64_to_le_bytes(a.amount));
}

/// Writing a record into any buffer with room for it and decoding the buffer gives the
/// record back.
pub proof fn lemma_decode_after_pack_into(a: AirdropView, data: Seq<u8>)
    requires
        a.wf(),
        data.len() >= AIRDROP_ENCODED_LEN,
    ensures
        AirdropView::spec_decode(a.spec_pack_into(data)) == Some(a),
{
    lemma_decode_encode(a, data.subrange(AIRDROP_ENCODED_LEN as int, data.len() as int));
}

/// Storing a record and reading the account back gives the record.
pub proof fn lemma_unpack_after_pack(a: AirdropView, data: Seq<u8>)
    requires
        a.wf(),
        data.len() == AIRDROP_LEN,
    ensures
        AirdropView::spec_unpack_unchecked(a.spec_pack_into(data)) == Ok::<AirdropView, ProgramError>(a),
{
    lemma_auto_spec_u64_to_from_le_bytes();
    let d = a.spec_pack_into(data);
    let flag = if a.is_initialized { 1u8 } else { 0u8 };
    assert(d[0] == flag);
    assert(d.subrange(1, 33) =~= a.deposit);
    assert(d.subrange(33, 65) =~= a.withdrawal);
    assert(d.subrange(65, 73) =~= spec_u64_to_le_bytes(a.amount));
}

/// Storing back the record that an account holds leaves the account as it was.
pub proof fn lemma_pack_after_unpack(data: Seq<u8>)
    requires
        AirdropView::spec_unpack_unchecked(data) is Ok,
    ensures
        AirdropView::spec_unpack_unchecked(data)->Ok_0.spec_pack_into(data) =~= data,
{
    lemma_auto_spec_u64_to_from_le_bytes();
    let v = AirdropView::spec_unpack_unchecked(data)->Ok_0;
    let amount_bytes = data.subrange(65, 73);
    assert(spec_u64_to_le_bytes(spec_u64_from_le_bytes(amount_bytes)) == amount_bytes);
    assert(v.spec_encode() =~= data.subrange(0, 73));
}

} // verus!
