//! An escrow for SPL tokens, a lamport vault, and the refund of an escrow run
//! on Anchor: the checks, the stored state and the planned calls of their
//! instructions, verified.
use vstd::prelude::*;

pub mod account;
pub mod anchor_escrow;
pub mod cpi;
pub mod error;
pub mod helpers;
pub mod instructions;
pub mod laws;
pub mod pda;
pub mod state;
pub mod vault;

use crate::error::EscrowError;
use crate::instructions::make::Make;
use crate::instructions::refund::Refund;
use crate::instructions::take::Take;

verus! {

/// The instructions of the escrow program.
#[derive(Debug, Clone, Copy, PartialEq, Eq, Structural)]
pub enum EscrowInstruction {
    /// Open an offer; the data after the first byte is `MakeInstructionData`.
    Make,
    /// Accept an offer.
    Take,
    /// Withdraw an offer.
    Refund,
}

/// Which instruction the first byte of instruction data names: 0 Make,
/// 1 Take, 2 Refund; anything else, or no data, is `InvalidInstructionData`.
pub open spec fn spec_route_instruction(data: Seq<u8>) -> Result<EscrowInstruction, EscrowError> {
    if data.len() == 0 {
        Err(EscrowError::InvalidInstructionData)
    } else if data[0] == Make::DISCRIMINATOR {
        Ok(EscrowInstruction::Make)
    } else if data[0] == Take::DISCRIMINATOR {
        Ok(EscrowInstruction::Take)
    } else if data[0] == Refund::DISCRIMINATOR {
        Ok(EscrowInstruction::Refund)
    } else {
        Err(EscrowError::InvalidInstructionData)
    }
}

/// Reads which instruction of the escrow program the data asks for.
pub fn route_instruction(instruction_data: &[u8]) -> (r: Result<EscrowInstruction, EscrowError>)
    ensures
        r == spec_route_instruction(instruction_data@),
        instruction_data@.len() >= 1 && instruction_data@[0] == 0 ==> r == Ok::<EscrowInstruction, EscrowError>(EscrowInstruction::Make),
        instruction_data@.len() >= 1 && instruction_data@[0] == 1 ==> r == Ok::<EscrowInstruction, EscrowError>(EscrowInstruction::Take),
        instruction_data@.len() >= 1 && instruction_data@[0] == 2 ==> r == Ok::<EscrowInstruction, EscrowError>(EscrowInstruction::Refund),
        instruction_data@.len() == 0 || instruction_data@[0] > 2 ==> r == Err::<EscrowInstruction, EscrowError>(EscrowError::InvalidInstructionData),
{
    if instruction_data.len() == 0 {
        Err(EscrowError::InvalidInstructionData)
    } else if instruction_data[0] == Make::DISCRIMINATOR {
        Ok(EscrowInstruction::Make)
    } else if instruction_data[0] == Take::DISCRIMINATOR {
        Ok(EscrowInstruction::Take)
    } else if instruction_data[0] == Refund::DISCRIMINATOR {
        Ok(EscrowInstruction::Refund)
    } else {
        Err(EscrowError::InvalidInstructionData)
    }
}

} // verus!
