//! Templates of the instruction handlers of a new project.
use vstd::prelude::*;

verus! {

/// The handler of the initialize instruction.
pub const INITIALIZE_RS: &'static str = r#"use pinocchio::{
    cpi::{Seed, Signer},
    error::ProgramError,
    sysvars::{Sysvar, rent::Rent},
    AccountView, ProgramResult,
};

use pinocchio_system::instructions::CreateAccount;

use crate::{
    errors::MyProgramError,
    states::{
        utils::{load_ix_data, DataLen},
        MyState,
    },
};

#[repr(C)]
#[derive(Clone, Copy)]
pub struct Initialize {
    pub owner: [u8; 32],
    pub bump: u8,
}

impl DataLen for Initialize {
    const LEN: usize = core::mem::size_of::<Initialize>();
}

pub fn initialize(accounts: &[AccountView], data: &[u8]) -> ProgramResult {
    let [payer_acc, state_acc, _system_program] = accounts else {
        return Err(ProgramError::NotEnoughAccountKeys);
    };

    if !payer_acc.is_signer() {
        return Err(ProgramError::MissingRequiredSignature);
    }

    if !state_acc.is_data_empty() {
        return Err(ProgramError::AccountAlreadyInitialized);
    }

    let ix_data = unsafe { load_ix_data::<Initialize>(data)? };

    if ix_data.owner != *payer_acc.address().as_ref() {
        return Err(MyProgramError::InvalidOwner.into());
    }

    let pda_bump_bytes = [ix_data.bump];

    MyState::validate_pda(ix_data.bump, state_acc.address(), &ix_data.owner)?;

    // signer seeds
    let signer_seeds = [
        Seed::from(MyState::SEED.as_bytes()),
        Seed::from(&ix_data.owner),
        Seed::from(&pda_bump_bytes[..]),
    ];
    let signers = [Signer::from(&signer_seeds[..])];

    CreateAccount {
        from: payer_acc,
        to: state_acc,
        space: MyState::LEN as u64,
        owner: &crate::ID,
        lamports: Rent::get()?.minimum_balance_unchecked(MyState::LEN),
    }
    .invoke_signed(&signers)?;

    MyState::initialize(state_acc, ix_data)?;

    Ok(())
}"#;

/// The instruction module, with the instruction discriminators.
pub const INSTRUCTIONS_MOD_RS: &'static str = r#"use pinocchio::error::ProgramError;

pub mod deposit;
pub mod initialize;
pub mod withdraw;

pub use deposit::*;
pub use initialize::*;
pub use withdraw::*;

#[repr(u8)]
pub enum ProgramInstruction {
    InitializeState,
    Deposit,
    Withdraw,
}

impl TryFrom<&u8> for ProgramInstruction {
    type Error = ProgramError;

    fn try_from(value: &u8) -> Result<Self, Self::Error> {
        match *value {
            0 => Ok(ProgramInstruction::InitializeState),
            1 => Ok(ProgramInstruction::Deposit),
            2 => Ok(ProgramInstruction::Withdraw),
            _ => Err(ProgramError::InvalidInstructionData),
        }
    }
}"#;

/// The handler of the deposit instruction.
pub const DEPOSIT_RS: &'static str = r#"use pinocchio::{error::ProgramError, AccountView, ProgramResult};
use pinocchio_system::instructions::Transfer;

/// Moves the lamports given as a little-endian `u64` in `data` from the
/// payer into the vault.
pub fn deposit(accounts: &[AccountView], data: &[u8]) -> ProgramResult {
    let [payer_acc, vault_acc, _system_program] = accounts else {
        return Err(ProgramError::NotEnoughAccountKeys);
    };

    if !payer_acc.is_signer() {
        return Err(ProgramError::MissingRequiredSignature);
    }

    let amount = u64::from_le_bytes(
        data.try_into()
            .map_err(|_| ProgramError::InvalidInstructionData)?,
    );

    Transfer {
        from: payer_acc,
        to: vault_acc,
        lamports: amount,
    }
    .invoke()
}"#;

/// The handler of the withdraw instruction.
pub const WITHDRAW_RS: &'static str = r#"use pinocchio::{
    cpi::{Seed, Signer},
    error::ProgramError,
    AccountView, ProgramResult,
};
use pinocchio_system::instructions::Transfer;

pub const VAULT_SEED: &str = "vault";

/// Moves lamports from the owner's vault back to the owner. `data` holds
/// the amount as a little-endian `u64`, then the bump of the vault address.
pub fn withdraw(accounts: &[AccountView], data: &[u8]) -> ProgramResult {
    let [owner_acc, vault_acc, _system_program] = accounts else {
        return Err(ProgramError::NotEnoughAccountKeys);
    };

    if !owner_acc.is_signer() {
        return Err(ProgramError::MissingRequiredSignature);
    }

    if data.len() != 9 {
        return Err(ProgramError::InvalidInstructionData);
    }
    let amount = u64::from_le_bytes(
        data[..8]
            .try_into()
            .map_err(|_| ProgramError::InvalidInstructionData)?,
    );
    let bump_bytes = [data[8]];

    // signer seeds of the vault
    let signer_seeds = [
        Seed::from(VAULT_SEED.as_bytes()),
        Seed::from(owner_acc.address().as_ref()),
        Seed::from(&bump_bytes[..]),
    ];
    let signers = [Signer::from(&signer_seeds[..])];

    Transfer {
        from: vault_acc,
        to: owner_acc,
        lamports: amount,
    }
    .invoke_signed(&signers)
}"#;

/// The handler of the initialize instruction.
pub fn initialize() -> (r: &'static str)
    ensures
        r@ == INITIALIZE_RS@,
{
    INITIALIZE_RS
}

/// The instruction module, with the instruction discriminators.
pub fn instructions_mod_rs() -> (r: &'static str)
    ensures
        r@ == INSTRUCTIONS_MOD_RS@,
{
    INSTRUCTIONS_MOD_RS
}

/// The handler of the deposit instruction.
pub fn deposit() -> (r: &'static str)
    ensures
        r@ == DEPOSIT_RS@,
{
    DEPOSIT_RS
}

/// The handler of the withdraw instruction.
pub fn withdraw() -> (r: &'static str)
    ensures
        r@ == WITHDRAW_RS@,
{
    WITHDRAW_RS
}

} // verus!
