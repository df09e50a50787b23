use vstd::prelude::*;

verus! {

/// Why an instruction of the escrow or vault programs was refused.
#[derive(Debug, Clone, Copy, PartialEq, Eq, Structural)]
pub enum EscrowError {
    NotEnoughAccountKeys,
    InvalidInstructionData,
    InvalidAccountData,
    InvalidAccountOwner,
    IncorrectProgramId,
    MissingRequiredSignature,
    InvalidAddress,
    MaxSeedLengthExceeded,
    InvalidSeeds,
    IllegalOwner,
    ArithmeticOverflow,
    InvalidAmount,
    InvalidMaker,
    InvalidMintA,
}

} // verus!
