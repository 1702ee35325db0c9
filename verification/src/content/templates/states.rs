//! Templates of the account state modules of a new project.
use vstd::prelude::*;

verus! {

/// The state module root.
pub const STATES_MOD_RS: &'static str = r#"pub mod state;
pub mod utils;

pub use state::*;
pub use utils::*;"#;

/// The program state account.
pub const STATE_RS: &'static str = r#"use super::utils::{load_acc_mut_unchecked, DataLen};
use pinocchio::{
    error::ProgramError,
    AccountView, Address, ProgramResult,
};

use crate::{errors::MyProgramError, instructions::Initialize};

#[repr(C)]
#[derive(Clone, Copy)]
pub struct MyState {
    pub owner: [u8; 32],
}

impl DataLen for MyState {
    const LEN: usize = core::mem::size_of::<MyState>();
}

impl MyState {
    pub const SEED: &'static str = "init";

    pub fn validate_pda(bump: u8, pda: &Address, owner: &[u8; 32]) -> Result<(), ProgramError> {
        let seed_with_bump = &[Self::SEED.as_bytes(), owner.as_ref(), &[bump]];
        let derived = Address::create_program_address(seed_with_bump, &crate::ID)?;
        if derived != *pda {
            return Err(MyProgramError::PdaMismatch.into());
        }
        Ok(())
    }

    pub fn initialize(my_stata_acc: &AccountView, ix_data: &Initialize) -> ProgramResult {
        let my_state =
            unsafe { load_acc_mut_unchecked::<MyState>(my_stata_acc.borrow_unchecked_mut()) }?;

        my_state.owner = ix_data.owner;
        Ok(())
    }
}"#;

/// Helpers that load accounts and instruction data.
pub const UTILS_RS: &'static str = r#"use pinocchio::error::ProgramError;

use crate::errors::MyProgramError;

pub trait DataLen {
    const LEN: usize;
}

#[inline(always)]
pub unsafe fn load_acc_unchecked<T: DataLen>(bytes: &[u8]) -> Result<&T, ProgramError> {
    if bytes.len() != core::mem::size_of::<T>() {
        return Err(ProgramError::InvalidAccountData);
    }
    if bytes.as_ptr() as usize % core::mem::align_of::<T>() != 0 {
        return Err(ProgramError::InvalidAccountData);
    }
    Ok(&*(bytes.as_ptr() as *const T))
}

#[inline(always)]
pub unsafe fn load_acc_mut_unchecked<T: DataLen>(bytes: &mut [u8]) -> Result<&mut T, ProgramError> {
    if bytes.len() != core::mem::size_of::<T>() {
        return Err(ProgramError::InvalidAccountData);
    }
    if bytes.as_ptr() as usize % core::mem::align_of::<T>() != 0 {
        return Err(ProgramError::InvalidAccountData);
    }
    Ok(&mut *(bytes.as_mut_ptr() as *mut T))
}

#[inline(always)]
pub unsafe fn load_ix_data<T: DataLen>(bytes: &[u8]) -> Result<&T, ProgramError> {
    if bytes.len() != T::LEN {
        return Err(MyProgramError::InvalidInstructionData.into());
    }
    Ok(&*(bytes.as_ptr() as *const T))
}

pub unsafe fn to_bytes<T: DataLen>(data: &T) -> &[u8] {
    core::slice::from_raw_parts(data as *const T as *const u8, T::LEN)
}

pub unsafe fn to_mut_bytes<T: DataLen>(data: &mut T) -> &mut [u8] {
    core::slice::from_raw_parts_mut(data as *mut T as *mut u8, T::LEN)
}"#;

/// The state module root.
pub fn states_mod_rs() -> (r: &'static str)
    ensures
        r@ == STATES_MOD_RS@,
{
    STATES_MOD_RS
}

/// The program state account.
pub fn state_rs() -> (r: &'static str)
    ensures
        r@ == STATE_RS@,
{
    STATE_RS
}

/// Helpers that load accounts and instruction data.
pub fn utils_rs() -> (r: &'static str)
    ensures
        r@ == UTILS_RS@,
{
    UTILS_RS
}

} // verus!
