use spl_faucet::address::Address;
use spl_faucet::error::{Error, ProgramError};
use spl_faucet::genesis;
use spl_faucet::instruction::Instruction;
use spl_faucet::state::{Airdrop, AIRDROP_ENCODED_LEN, AIRDROP_LEN};

#[test]
fn instruction_encodings_match_bincode() {
    assert_eq!(Instruction::StartAirdrop.encode(), bincode::serialize(&0u32).unwrap());
    assert_eq!(Instruction::FinishAirdrop.encode(), bincode::serialize(&1u32).unwrap());
    let take = Instruction::TakeAirdrop { amount: 0x0102_0304_0506_0708 };
    assert_eq!(take.encode(), bincode::serialize(&(2u32, 0x0102_0304_0506_0708u64)).unwrap());
    assert_eq!(take.encode(), vec![2, 0, 0, 0, 8, 7, 6, 5, 4, 3, 2, 1]);
}

#[test]
fn instruction_round_trip() {
    for ix in [
        Instruction::StartAirdrop,
        Instruction::FinishAirdrop,
        Instruction::TakeAirdrop { amount: 0 },
        Instruction::TakeAirdrop { amount: u64::MAX },
    ] {
        let mut bytes = ix.encode();
        assert_eq!(Instruction::decode(&bytes), Some(ix));
        bytes.extend_from_slice(&[9, 9, 9]);
        assert_eq!(Instruction::decode(&bytes), Some(ix));
    }
}

#[test]
fn malformed_instructions_are_refused() {
    assert_eq!(Instruction::decode(&[]), None);
    assert_eq!(Instruction::decode(&[0, 0, 0]), None);
    assert_eq!(Instruction::decode(&[3, 0, 0, 0]), None);
    assert_eq!(Instruction::decode(&[0, 1, 0, 0]), None);
    assert_eq!(Instruction::decode(&[2, 0, 0, 0, 1, 2, 3, 4, 5, 6, 7]), None);
    assert_eq!(Instruction::decode(&[1, 0, 0, 0]), Some(Instruction::FinishAirdrop));
}

#[test]
fn genesis_instruction_codec() {
    assert_eq!(genesis::Instruction::Genesis.encode(), vec![0, 0, 0, 0]);
    assert_eq!(genesis::Instruction::decode(&[0, 0, 0, 0, 7]), Some(genesis::Instruction::Genesis));
    assert_eq!(genesis::Instruction::decode(&[1, 0, 0, 0]), None);
    assert_eq!(genesis::Instruction::decode(&[0, 0]), None);
}

fn sample_airdrop() -> Airdrop {
    Airdrop {
        is_initialized: true,
        deposit: Address([1u8; 32]),
        withdrawal: Address([2u8; 32]),
        amount: 500,
    }
}

#[test]
fn airdrop_encoding_matches_bincode() {
    let a = sample_airdrop();
    let expected = bincode::serialize(&(true, [1u8; 32], [2u8; 32], 500u64)).unwrap();
    assert_eq!(expected.len(), AIRDROP_ENCODED_LEN);
    assert_eq!(a.encode(), expected);
}

#[test]
fn airdrop_len_is_its_size() {
    assert_eq!(std::mem::size_of::<Airdrop>(), AIRDROP_LEN);
}

#[test]
fn airdrop_pack_then_unpack() {
    let a = sample_airdrop();
    let mut data = vec![0xAAu8; AIRDROP_LEN];
    assert_eq!(Airdrop::pack(a, &mut data), Ok(()));
    assert_eq!(&data[AIRDROP_ENCODED_LEN..], &[0xAAu8; AIRDROP_LEN - AIRDROP_ENCODED_LEN][..]);
    assert_eq!(Airdrop::unpack_unchecked(&data), Ok(a));
    let fresh = vec![0u8; AIRDROP_LEN];
    let empty = Airdrop::unpack_unchecked(&fresh).unwrap();
    assert!(!empty.is_initialized());
    assert_eq!(empty.amount, 0);
}

#[test]
fn airdrop_wrong_size_or_bad_flag_refused() {
    let a = sample_airdrop();
    let mut short = vec![0u8; AIRDROP_LEN - 1];
    assert_eq!(Airdrop::pack(a, &mut short), Err(ProgramError::InvalidAccountData));
    assert_eq!(short, vec![0u8; AIRDROP_LEN - 1]);
    assert_eq!(Airdrop::unpack_unchecked(&short), Err(ProgramError::InvalidAccountData));
    let mut bad = vec![0u8; AIRDROP_LEN];
    bad[0] = 2;
    assert_eq!(Airdrop::unpack_unchecked(&bad), Err(ProgramError::InvalidAccountData));
}

#[test]
fn errors_become_custom_codes() {
    assert_eq!(ProgramError::from(Error::MalformedInstruction), ProgramError::Custom(0));
    assert_eq!(ProgramError::from(Error::LamportsOverflow), ProgramError::Custom(1));
    assert_eq!(Error::LamportsOverflow.code(), 1);
}

#[test]
fn address_compare_and_read() {
    let a = Address([5u8; 32]);
    let mut b = [5u8; 32];
    assert!(a.same_as(&Address(b)));
    b[31] = 6;
    assert!(!a.same_as(&Address(b)));
    let bytes: Vec<u8> = (0u8..40).collect();
    let read = Address::read_from(&bytes, 3);
    assert_eq!(read.0[0], 3);
    assert_eq!(read.0[31], 34);
}

#[test]
fn airdrop_written_into_any_roomy_buffer() {
    let a = sample_airdrop();
    let mut data = vec![0x55u8; 100];
    a.pack_into_slice(&mut data);
    assert_eq!(&data[..AIRDROP_ENCODED_LEN], &a.encode()[..]);
    assert_eq!(&data[AIRDROP_ENCODED_LEN..], &[0x55u8; 100 - AIRDROP_ENCODED_LEN][..]);
    assert_eq!(Airdrop::unpack_from_slice(&data), Ok(a));
    let mut exact = vec![0u8; AIRDROP_ENCODED_LEN];
    a.pack_into_slice(&mut exact);
    assert_eq!(Airdrop::unpack_from_slice(&exact), Ok(a));
    assert_eq!(Airdrop::unpack_from_slice(&exact[..72]), Err(ProgramError::InvalidAccountData));
}
