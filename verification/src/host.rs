//! Trusted declarations for the pinocchio runtime types that the library's
//! contracts speak about, and for the cross-program-invocation entry point.
//!
//! Everything in this module is believed, not proved: each item's doc comment
//! names the pinocchio item it relies on.

use vstd::prelude::*;

use pinocchio::ProgramResult;
use pinocchio::account_info::AccountInfo;
use pinocchio::instruction::AccountMeta;
use pinocchio::instruction::Instruction;
use pinocchio::instruction::Signer;
use pinocchio::program_error::ProgramError;
use pinocchio::pubkey::Pubkey;

verus! {

/// The public key of an account, as the runtime serialized it.
///
/// The runtime fixes an account's key for the whole execution, so the key is a
/// function of the `AccountInfo` value alone; nothing further is assumed of it.
pub uninterp spec fn account_key(a: AccountInfo) -> Seq<u8>;

/// `pinocchio::account_info::AccountInfo`: an account handed to the program by
/// the runtime. Its only field is a raw pointer into the runtime's input
/// region, so the type stays opaque; the contracts reach its key through
/// [`account_key`].
#[verifier::external_type_specification]
#[verifier::external_body]
pub struct ExAccountInfo(AccountInfo);

/// `pinocchio::program_error::ProgramError`: the error codes a program run can
/// end with. A plain enum of unit variants and `Custom(u32)`, declared
/// transparently so that contracts can name the exact variant returned.
#[verifier::external_type_specification]
pub struct ExProgramError(ProgramError);

/// `pinocchio::instruction::AccountMeta`: one account of a CPI instruction,
/// with its key and its writable and signer flags. All fields are public, so
/// the declaration is transparent and verified code builds values directly.
#[verifier::external_type_specification]
pub struct ExAccountMeta<'a>(AccountMeta<'a>);

/// `pinocchio::instruction::Instruction`: a CPI instruction, made of the
/// target program's key, the account metadata and the instruction bytes. All
/// fields are public, so the declaration is transparent.
#[verifier::external_type_specification]
pub struct ExInstruction<'a, 'b, 'c, 'd>(Instruction<'a, 'b, 'c, 'd>) where 'a: 'b;

/// `pinocchio::instruction::Signer`: the seeds of a program-derived address
/// that should sign the invocation. The library only passes these through, so
/// the type stays opaque.
#[verifier::external_type_specification]
#[verifier::external_body]
pub struct ExSigner<'a, 'b>(Signer<'a, 'b>);

/// Relies on `pinocchio::account_info::AccountInfo::key`: returns a reference
/// to the account's public key, 32 bytes that the runtime keeps fixed for the
/// account's lifetime.
pub assume_specification[ AccountInfo::key ](a: &AccountInfo) -> (r: &Pubkey)
    ensures
        r@ == account_key(*a),
;

/// Whether each account of `metas` is matched, at the same position, by an
/// account of `infos` with the same key. This is the pairing the runtime's
/// invoke primitive validates before it performs the syscall.
pub open spec fn infos_match_metas(infos: Seq<&AccountInfo>, metas: Seq<AccountMeta>) -> bool {
    forall|i: int| 0 <= i < metas.len() ==> account_key(*#[trigger] infos[i]) == metas[i].pubkey@
}

/// Relies on `pinocchio::cpi::invoke_signed`: hands the instruction, the
/// matching account list and the signer seeds to the runtime. Before the
/// syscall it validates, in this order: that the instruction names no more
/// accounts than are handed (`NotEnoughAccountKeys` otherwise); pair by pair,
/// that the handed account's key equals the metadata's (`InvalidArgument`)
/// and that the account's borrow state allows the access
/// (`AccountBorrowFailed`). The syscall itself returns nothing: a failure of
/// the invoked program ends the transaction instead of returning, so a run
/// that passes validation comes back `Ok` unless a borrow was refused. The
/// borrow state lives in runtime memory and is not a function of the
/// arguments, so `AccountBorrowFailed` stays possible in every clause.
#[verifier::external_body]
pub fn invoke_signed_cpi(
    instruction: &Instruction,
    account_infos: &[&AccountInfo; 13],
    signer_seeds: &[Signer],
) -> (r: ProgramResult)
    ensures
        (match r {
            Ok(u) => instruction.accounts@.len() <= account_infos@.len()
                && infos_match_metas(account_infos@, instruction.accounts@),
            Err(e) => (e == ProgramError::NotEnoughAccountKeys
                && instruction.accounts@.len() > account_infos@.len()) || (e
                == ProgramError::InvalidArgument
                && instruction.accounts@.len() <= account_infos@.len()
                && !infos_match_metas(account_infos@, instruction.accounts@)) || (e
                == ProgramError::AccountBorrowFailed
                && instruction.accounts@.len() <= account_infos@.len()),
        }),
{
    pinocchio::cpi::invoke_signed(instruction, account_infos, signer_seeds)
}



} // verus!
