use vstd::prelude::*;

use crate::error::EscrowError;

verus! {

/// The instructions of the vault program.
#[derive(Debug, Clone, Copy, PartialEq, Eq, Structural)]
pub enum VaultInstruction {
    /// Put lamports into the vault; the data after the first byte is its parameters.
    Deposit,
    /// Take the lamports back out.
    Withdraw,
}

/// The first byte of a Deposit instruction.
pub const DEPOSIT_DISCRIMINATOR: u8 = 0;

/// The first byte of a Withdraw instruction.
pub const WITHDRAW_DISCRIMINATOR: u8 = 1;

/// Which instruction the first byte of vault instruction data names:
/// 0 Deposit, 1 Withdraw; anything else, or no data, is
/// `InvalidInstructionData`.
pub open spec fn spec_route_vault_instruction(data: Seq<u8>) -> Result<VaultInstruction, EscrowError> {
    if data.len() == 0 {
        Err(EscrowError::InvalidInstructionData)
    } else if data[0] == DEPOSIT_DISCRIMINATOR {
        Ok(VaultInstruction::Deposit)
    } else if data[0] == WITHDRAW_DISCRIMINATOR {
        Ok(VaultInstruction::Withdraw)
    } else {
        Err(EscrowError::InvalidInstructionData)
    }
}

/// Reads which instruction of the vault program the data asks for.
pub fn route_vault_instruction(instruction_data: &[u8]) -> (r: Result<VaultInstruction, EscrowError>)
    ensures
        r == spec_route_vault_instruction(instruction_data@),
        instruction_data@.len() >= 1 && instruction_data@[0] == 0 ==> r == Ok::<VaultInstruction, EscrowError>(VaultInstruction::Deposit),
        instruction_data@.len() >= 1 && instruction_data@[0] == 1 ==> r == Ok::<VaultInstruction, EscrowError>(VaultInstruction::Withdraw),
        instruction_data@.len() == 0 || instruction_data@[0] > 1 ==> r == Err::<VaultInstruction, EscrowError>(EscrowError::InvalidInstructionData),
{
    if instruction_data.len() == 0 {
        Err(EscrowError::InvalidInstructionData)
    } else if instruction_data[0] == DEPOSIT_DISCRIMINATOR {
        Ok(VaultInstruction::Deposit)
    } else if instruction_data[0] == WITHDRAW_DISCRIMINATOR {
        Ok(VaultInstruction::Withdraw)
    } else {
        Err(EscrowError::InvalidInstructionData)
    }
}

} // verus!
