//! The protocol-independent swap interface: the swap mode, the [`Swap`]
//! trait, the [`SwapContext`] dispatcher and the free entry points that pick a
//! protocol from a raw account list.

use vstd::prelude::*;
use vstd::slice::slice_index_get;

use pinocchio::ProgramResult;
use pinocchio::account_info::AccountInfo;
use pinocchio::instruction::Signer;
use pinocchio::program_error::ProgramError;
use pinocchio::pubkey::Pubkey;

use crate::host::account_key;
use crate::raydium_cpmm::RAYDIUM_CPMM_PROGRAM_ID;
use crate::raydium_cpmm::RaydiumCPMM;
use crate::raydium_cpmm::RaydiumCPMMSwapAccounts;
use crate::raydium_cpmm::spec_accounts_match;

verus! {

/// Which amount of a swap is fixed: the input (`ExactIn`) or the output
/// (`ExactOut`).
#[derive(Clone, Copy, Debug, PartialEq, Eq, Structural)]
pub enum Mode {
    ExactIn,
    ExactOut,
}

impl Default for Mode {
    /// The default mode fixes the input amount.
    fn default() -> (r: Self)
        ensures
            r == Mode::ExactIn,
    {
        Mode::ExactIn
    }
}

/// Compares two 32-byte account keys for equality.
pub fn pubkey_eq(a: &Pubkey, b: &Pubkey) -> (r: bool)
    ensures
        r == (a@ == b@),
{
    let mut i: usize = 0;
    while i < 32
        invariant
            i <= 32,
            forall|j: int| 0 <= j < i ==> a@[j] == b@[j],
        decreases 32 - i,
    {
        if a[i] != b[i] {
            return false;
        }
        i = i + 1;
    }
    proof {
        assert(a@ =~= b@);
    }
    true
}

/// The swap interface a protocol integration offers: the same swap, with and
/// without program-derived-address signing, over the protocol's own account
/// structure.
pub trait Swap<'info> {
    /// Protocol-specific accounts required for the swap CPI.
    type Accounts;

    /// Execute a swap with PDA signing capability. An implementation hands
    /// the runtime an instruction whose account pairing passes validation:
    /// the call comes back `Ok` unless the runtime refuses an account
    /// borrow; a failure of the invoked program ends the transaction instead
    /// of returning.
    fn swap_signed(
        ctx: &Self::Accounts,
        amount_in: u64,
        amount_out: u64,
        mode: Mode,
        signer_seeds: &[Signer],
    ) -> (r: ProgramResult)
        ensures
            r is Ok || (r matches Err(e) && e == ProgramError::AccountBorrowFailed),
    ;

    /// Execute a swap without signing (user is direct signer); the result is
    /// as with [`Swap::swap_signed`].
    fn swap(ctx: &Self::Accounts, amount_in: u64, amount_out: u64, mode: Mode) -> (r: ProgramResult)
        ensures
            r is Ok || (r matches Err(e) && e == ProgramError::AccountBorrowFailed),
    ;
}

impl<'info> Swap<'info> for RaydiumCPMM {
    type Accounts = RaydiumCPMMSwapAccounts<'info>;

    fn swap_signed(
        ctx: &RaydiumCPMMSwapAccounts<'info>,
        amount_in: u64,
        amount_out: u64,
        mode: Mode,
        signer_seeds: &[Signer],
    ) -> ProgramResult {
        RaydiumCPMM::swap_signed(ctx, amount_in, amount_out, mode, signer_seeds)
    }

    fn swap(
        ctx: &RaydiumCPMMSwapAccounts<'info>,
        amount_in: u64,
        amount_out: u64,
        mode: Mode,
    ) -> ProgramResult {
        RaydiumCPMM::swap(ctx, amount_in, amount_out, mode)
    }
}

/// The account structure of whichever protocol the raw account list was
/// recognized as.
pub enum SwapContext<'info> {
    RaydiumCPMM(RaydiumCPMMSwapAccounts<'info>),
}

impl<'info> SwapContext<'info> {
    /// Dispatches a signed swap to the protocol the context was built for;
    /// the runtime's result is returned verbatim, and comes back `Ok` unless
    /// the runtime refuses an account borrow.
    pub fn swap_signed(
        ctx: &Self,
        amount_in: u64,
        amount_out: u64,
        mode: Mode,
        signer_seeds: &[Signer],
    ) -> (r: ProgramResult)
        ensures
            r is Ok || (r matches Err(e) && e == ProgramError::AccountBorrowFailed),
    {
        match ctx {
            SwapContext::RaydiumCPMM(raydium_cpmm_ctx) => RaydiumCPMM::swap_signed(
                raydium_cpmm_ctx,
                amount_in,
                amount_out,
                mode,
                signer_seeds,
            ),
        }
    }

    /// Dispatches an unsigned swap to the protocol the context was built
    /// for; the result is as with [`SwapContext::swap_signed`].
    pub fn swap(ctx: &Self, amount_in: u64, amount_out: u64, mode: Mode) -> (r: ProgramResult)
        ensures
            r is Ok || (r matches Err(e) && e == ProgramError::AccountBorrowFailed),
    {
        Self::swap_signed(ctx, amount_in, amount_out, mode, &[])
    }
}

impl<'info> Swap<'info> for SwapContext<'info> {
    type Accounts = Self;

    fn swap_signed(
        ctx: &Self,
        amount_in: u64,
        amount_out: u64,
        mode: Mode,
        signer_seeds: &[Signer],
    ) -> ProgramResult {
        SwapContext::swap_signed(ctx, amount_in, amount_out, mode, signer_seeds)
    }

    fn swap(ctx: &Self, amount_in: u64, amount_out: u64, mode: Mode) -> ProgramResult {
        SwapContext::swap(ctx, amount_in, amount_out, mode)
    }
}

/// Recognizes which protocol a raw account list belongs to, by the key of its
/// first account, and destructures the list into that protocol's account
/// structure. Fails with `NotEnoughAccountKeys` when the list is empty or
/// holds fewer accounts than the recognized protocol needs, and with
/// `InvalidAccountData` when the first account is no known program.
pub fn try_from_swap_context<'info>(accounts: &'info [AccountInfo]) -> (r: Result<
    SwapContext<'info>,
    ProgramError,
>)
    ensures
        accounts@.len() == 0 ==> r == Err::<SwapContext, ProgramError>(
            ProgramError::NotEnoughAccountKeys,
        ),
        accounts@.len() > 0 && account_key(accounts@[0]) != RAYDIUM_CPMM_PROGRAM_ID@ ==> r
            == Err::<SwapContext, ProgramError>(ProgramError::InvalidAccountData),
        0 < accounts@.len() < 14 && account_key(accounts@[0]) == RAYDIUM_CPMM_PROGRAM_ID@ ==> r
            == Err::<SwapContext, ProgramError>(ProgramError::NotEnoughAccountKeys),
        accounts@.len() >= 14 && account_key(accounts@[0]) == RAYDIUM_CPMM_PROGRAM_ID@ ==> (
        r matches Ok(SwapContext::RaydiumCPMM(ctx)) && spec_accounts_match(ctx, accounts@)),
{
    if accounts.len() == 0 {
        return Err(ProgramError::NotEnoughAccountKeys);
    }
    let detector_account = slice_index_get(accounts, 0);
    if pubkey_eq(detector_account.key(), &RAYDIUM_CPMM_PROGRAM_ID) {
        match RaydiumCPMMSwapAccounts::try_from(accounts) {
            Ok(ctx) => Ok(SwapContext::RaydiumCPMM(ctx)),
            Err(e) => Err(e),
        }
    } else {
        Err(ProgramError::InvalidAccountData)
    }
}

/// Recognizes the protocol of `accounts` and executes a signed swap through
/// it. Fails with `NotEnoughAccountKeys` or `InvalidAccountData` exactly as
/// [`try_from_swap_context`] does; once a protocol is recognized, the
/// runtime's result is returned verbatim, and comes back `Ok` unless the
/// runtime refuses an account borrow.
pub fn swap_signed<'info>(
    accounts: &'info [AccountInfo],
    amount_in: u64,
    amount_out: u64,
    mode: Mode,
    signer_seeds: &[Signer],
) -> (r: ProgramResult)
    ensures
        accounts@.len() == 0 ==> r == Err::<(), ProgramError>(ProgramError::NotEnoughAccountKeys),
        accounts@.len() > 0 && account_key(accounts@[0]) != RAYDIUM_CPMM_PROGRAM_ID@ ==> r
            == Err::<(), ProgramError>(ProgramError::InvalidAccountData),
        0 < accounts@.len() < 14 && account_key(accounts@[0]) == RAYDIUM_CPMM_PROGRAM_ID@ ==> r
            == Err::<(), ProgramError>(ProgramError::NotEnoughAccountKeys),
        accounts@.len() >= 14 && account_key(accounts@[0]) == RAYDIUM_CPMM_PROGRAM_ID@ ==> (r
            is Ok || (r matches Err(e) && e == ProgramError::AccountBorrowFailed)),
{
    let ctx = match try_from_swap_context(accounts) {
        Ok(ctx) => ctx,
        Err(e) => {
            return Err(e);
        },
    };
    SwapContext::swap_signed(&ctx, amount_in, amount_out, mode, signer_seeds)
}

/// Recognizes the protocol of `accounts` and executes an unsigned swap
/// through it; errors and the result come exactly as with [`swap_signed`].
pub fn swap<'info>(
    accounts: &'info [AccountInfo],
    amount_in: u64,
    amount_out: u64,
    mode: Mode,
) -> (r: ProgramResult)
    ensures
        accounts@.len() == 0 ==> r == Err::<(), ProgramError>(ProgramError::NotEnoughAccountKeys),
        accounts@.len() > 0 && account_key(accounts@[0]) != RAYDIUM_CPMM_PROGRAM_ID@ ==> r
            == Err::<(), ProgramError>(ProgramError::InvalidAccountData),
        0 < accounts@.len() < 14 && account_key(accounts@[0]) == RAYDIUM_CPMM_PROGRAM_ID@ ==> r
            == Err::<(), ProgramError>(ProgramError::NotEnoughAccountKeys),
        accounts@.len() >= 14 && account_key(accounts@[0]) == RAYDIUM_CPMM_PROGRAM_ID@ ==> (r
            is Ok || (r matches Err(e) && e == ProgramError::AccountBorrowFailed)),
{
    swap_signed(accounts, amount_in, amount_out, mode, &[])
}

} // verus!
