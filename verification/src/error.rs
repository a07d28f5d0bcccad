use vstd::prelude::*;

verus! {

/// The failures that the programs report to the runtime; each variant stands for the
/// runtime's program error of the same name.
#[derive(Clone, Copy, Debug, PartialEq, Eq, Structural)]
pub enum ProgramError {
    /// A program-specific error, carried as its number.
    Custom(u32),
    InvalidArgument,
    InvalidInstructionData,
    InvalidAccountData,
    InsufficientFunds,
    IncorrectProgramId,
    MissingRequiredSignature,
    AccountAlreadyInitialized,
    UninitializedAccount,
    NotEnoughAccountKeys,
    InvalidSeeds,
    AccountNotRentExempt,
}

/// The errors specific to the faucet programs.
#[derive(Clone, Copy, Debug, PartialEq, Eq, Structural)]
pub enum Error {
    /// The instruction data does not decode to an instruction.
    MalformedInstruction,
    /// Crediting lamports would overflow the receiving balance.
    LamportsOverflow,
}

impl Error {
    /// The number under which the error is reported: its position in the declaration.
    pub open spec fn spec_code(self) -> u32 {
        match self {
            Error::MalformedInstruction => 0,
            Error::LamportsOverflow => 1,
        }
    }

    pub fn code(&self) -> (r: u32)
        ensures
            r == self.spec_code(),
    {
        match self {
            Error::MalformedInstruction => 0,
            Error::LamportsOverflow => 1,
        }
    }
}

impl vstd::std_specs::convert::FromSpecImpl<Error> for ProgramError {
    open spec fn obeys_from_spec() -> bool {
        true
    }

    open spec fn from_spec(e: Error) -> ProgramError {
        ProgramError::Custom(e.spec_code())
    }
}

impl From<Error> for ProgramError {
    /// A program-specific error reaches the runtime as a custom error with its number.
    fn from(e: Error) -> (r: ProgramError) {
        ProgramError::Custom(e.code())
    }
}

} // verus!
