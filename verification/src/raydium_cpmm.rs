//! The Raydium constant-product market maker (CPMM) protocol: its program
//! identifier, the account layout of its swap instruction, and the binary
//! encoding of the instruction itself.

use vstd::array::array_as_slice;
use vstd::bytes::spec_u64_to_le_bytes;
use vstd::bytes::u64_to_le_bytes;
use vstd::prelude::*;
use vstd::slice::slice_index_get;

use pinocchio::ProgramResult;
use pinocchio::account_info::AccountInfo;
use pinocchio::instruction::AccountMeta;
use pinocchio::instruction::Instruction;
use pinocchio::instruction::Signer;
use pinocchio::program_error::ProgramError;

use crate::host::account_key;
use crate::host::infos_match_metas;
use crate::host::invoke_signed_cpi;
use crate::swap::Mode;

verus! {

/// The program identifier of the Raydium CPMM program.
pub const RAYDIUM_CPMM_PROGRAM_ID: [u8; 32] = [
    169, 42, 90, 139, 79, 41, 89, 82, 132, 37, 80, 170, 147, 253, 91, 149, 181, 172, 230, 168, 235,
    146, 12, 147, 148, 46, 67, 105, 12, 32, 236, 115,
];

/// The discriminator of the `swap_base_input` instruction.
pub const SWAP_BASE_INPUT_DISCRIMINATOR: [u8; 8] = [2, 218, 138, 235, 79, 201, 25, 102];

/// The discriminator of the `swap_base_output` instruction.
pub const SWAP_BASE_OUTPUT_DISCRIMINATOR: [u8; 8] = [55, 217, 98, 86, 163, 74, 180, 173];

/// The eight bytes that select the swap instruction of the given mode.
pub open spec fn spec_discriminator(mode: Mode) -> Seq<u8> {
    match mode {
        Mode::ExactIn => SWAP_BASE_INPUT_DISCRIMINATOR@,
        Mode::ExactOut => SWAP_BASE_OUTPUT_DISCRIMINATOR@,
    }
}

/// The 24-byte payload of a swap instruction: the mode's discriminator,
/// then the two amounts as little-endian 64-bit words.
pub open spec fn spec_instruction_data(mode: Mode, amount_in: u64, amount_out: u64) -> Seq<u8> {
    spec_discriminator(mode) + spec_u64_to_le_bytes(amount_in) + spec_u64_to_le_bytes(amount_out)
}

/// Raydium CPMM DEX integration.
pub struct RaydiumCPMM;

/// The named accounts of a Raydium CPMM swap, in the order the program's
/// interface lists them.
pub struct RaydiumCPMMSwapAccounts<'info> {
    pub payer: &'info AccountInfo,
    pub authority: &'info AccountInfo,
    pub amm_config: &'info AccountInfo,
    pub pool_state: &'info AccountInfo,
    pub input_token_account: &'info AccountInfo,
    pub output_token_account: &'info AccountInfo,
    pub input_vault: &'info AccountInfo,
    pub output_vault: &'info AccountInfo,
    pub input_token_program: &'info AccountInfo,
    pub output_token_program: &'info AccountInfo,
    pub input_token_mint: &'info AccountInfo,
    pub output_token_mint: &'info AccountInfo,
    pub observation_state: &'info AccountInfo,
}

/// Whether `ctx` names exactly the accounts `1..=13` of the raw list
/// `accounts`, in the order the protocol's interface gives them. Account `0`
/// is the target program itself and any account past the thirteenth is
/// ignored.
pub open spec fn spec_accounts_match(ctx: RaydiumCPMMSwapAccounts, accounts: Seq<AccountInfo>) -> bool {
    &&& *ctx.payer == accounts[1]
    &&& *ctx.authority == accounts[2]
    &&& *ctx.amm_config == accounts[3]
    &&& *ctx.pool_state == accounts[4]
    &&& *ctx.input_token_account == accounts[5]
    &&& *ctx.output_token_account == accounts[6]
    &&& *ctx.input_vault == accounts[7]
    &&& *ctx.output_vault == accounts[8]
    &&& *ctx.input_token_program == accounts[9]
    &&& *ctx.output_token_program == accounts[10]
    &&& *ctx.input_token_mint == accounts[11]
    &&& *ctx.output_token_mint == accounts[12]
    &&& *ctx.observation_state == accounts[13]
}

impl<'info> RaydiumCPMMSwapAccounts<'info> {
    /// Destructures a raw account list into the named swap accounts: the
    /// first account is the target program, the next thirteen are the swap's
    /// accounts in interface order, and any further accounts are ignored.
    /// Fails with `NotEnoughAccountKeys` when fewer than fourteen accounts
    /// are given.
    pub fn try_from(accounts: &'info [AccountInfo]) -> (r: Result<Self, ProgramError>)
        ensures
            accounts@.len() >= 14 ==> (r matches Ok(ctx) && spec_accounts_match(ctx, accounts@)),
            accounts@.len() < 14 ==> r == Err::<Self, ProgramError>(ProgramError::NotEnoughAccountKeys),
    {
        if accounts.len() < 14 {
            return Err(ProgramError::NotEnoughAccountKeys);
        }
        Ok(RaydiumCPMMSwapAccounts {
            payer: slice_index_get(accounts, 1),
            authority: slice_index_get(accounts, 2),
            amm_config: slice_index_get(accounts, 3),
            pool_state: slice_index_get(accounts, 4),
            input_token_account: slice_index_get(accounts, 5),
            output_token_account: slice_index_get(accounts, 6),
            input_vault: slice_index_get(accounts, 7),
            output_vault: slice_index_get(accounts, 8),
            input_token_program: slice_index_get(accounts, 9),
            output_token_program: slice_index_get(accounts, 10),
            input_token_mint: slice_index_get(accounts, 11),
            output_token_mint: slice_index_get(accounts, 12),
            observation_state: slice_index_get(accounts, 13),
        })
    }
}

/// Whether the account metadata `m` carries the key `key` and exactly the
/// flags `writable` and `signer`.
pub open spec fn spec_meta(m: AccountMeta, key: Seq<u8>, writable: bool, signer: bool) -> bool {
    &&& m.pubkey@ == key
    &&& m.is_writable == writable
    &&& m.is_signer == signer
}

impl RaydiumCPMM {
    /// Encodes the payload of a swap instruction: the discriminator that
    /// selects the instruction of `mode`, then `amount_in` and `amount_out`
    /// as little-endian 64-bit words.
    pub fn instruction_data(mode: Mode, amount_in: u64, amount_out: u64) -> (data: Vec<u8>)
        ensures
            data@ == spec_instruction_data(mode, amount_in, amount_out),
            data@.len() == 24,
    {
        proof {
            vstd::bytes::lemma_auto_spec_u64_to_from_le_bytes();
        }
        let discriminator: [u8; 8] = match mode {
            Mode::ExactIn => SWAP_BASE_INPUT_DISCRIMINATOR,
            Mode::ExactOut => SWAP_BASE_OUTPUT_DISCRIMINATOR,
        };
        let mut data: Vec<u8> = Vec::new();
        let mut i: usize = 0;
        while i < 8
            invariant
                i <= 8,
                data@ == discriminator@.subrange(0, i as int),
            decreases 8 - i,
        {
            data.push(discriminator[i]);
            i = i + 1;
        }
        proof {
            assert(data@ =~= spec_discriminator(mode));
        }
        let mut amount_in_bytes = u64_to_le_bytes(amount_in);
        data.append(&mut amount_in_bytes);
        let mut amount_out_bytes = u64_to_le_bytes(amount_out);
        data.append(&mut amount_out_bytes);
        data
    }

    /// Builds the account metadata of a swap instruction: the thirteen swap
    /// accounts in interface order, with the payer as the only signer and
    /// exactly the pool state, the token accounts, the vaults and the
    /// observation state writable.
    pub fn swap_account_metas<'info>(ctx: &RaydiumCPMMSwapAccounts<'info>) -> (metas: [AccountMeta<
        'info,
    >; 13])
        ensures
            spec_meta(metas@[0], account_key(*ctx.payer), false, true),
            spec_meta(metas@[1], account_key(*ctx.authority), false, false),
            spec_meta(metas@[2], account_key(*ctx.amm_config), false, false),
            spec_meta(metas@[3], account_key(*ctx.pool_state), true, false),
            spec_meta(metas@[4], account_key(*ctx.input_token_account), true, false),
            spec_meta(metas@[5], account_key(*ctx.output_token_account), true, false),
            spec_meta(metas@[6], account_key(*ctx.input_vault), true, false),
            spec_meta(metas@[7], account_key(*ctx.output_vault), true, false),
            spec_meta(metas@[8], account_key(*ctx.input_token_program), false, false),
            spec_meta(metas@[9], account_key(*ctx.output_token_program), false, false),
            spec_meta(metas@[10], account_key(*ctx.input_token_mint), false, false),
            spec_meta(metas@[11], account_key(*ctx.output_token_mint), false, false),
            spec_meta(metas@[12], account_key(*ctx.observation_state), true, false),
    {
        [
            AccountMeta { pubkey: ctx.payer.key(), is_writable: false, is_signer: true },
            AccountMeta { pubkey: ctx.authority.key(), is_writable: false, is_signer: false },
            AccountMeta { pubkey: ctx.amm_config.key(), is_writable: false, is_signer: false },
            AccountMeta { pubkey: ctx.pool_state.key(), is_writable: true, is_signer: false },
            AccountMeta {
                pubkey: ctx.input_token_account.key(),
                is_writable: true,
                is_signer: false,
            },
            AccountMeta {
                pubkey: ctx.output_token_account.key(),
                is_writable: true,
                is_signer: false,
            },
            AccountMeta { pubkey: ctx.input_vault.key(), is_writable: true, is_signer: false },
            AccountMeta { pubkey: ctx.output_vault.key(), is_writable: true, is_signer: false },
            AccountMeta {
                pubkey: ctx.input_token_program.key(),
                is_writable: false,
                is_signer: false,
            },
            AccountMeta {
                pubkey: ctx.output_token_program.key(),
                is_writable: false,
                is_signer: false,
            },
            AccountMeta { pubkey: ctx.input_token_mint.key(), is_writable: false, is_signer: false },
            AccountMeta {
                pubkey: ctx.output_token_mint.key(),
                is_writable: false,
                is_signer: false,
            },
            AccountMeta { pubkey: ctx.observation_state.key(), is_writable: true, is_signer: false },
        ]
    }

    /// Lists the accounts handed to the runtime alongside the instruction:
    /// the thirteen swap accounts, one for each entry of the account
    /// metadata and in the same order, so that the runtime's pairwise key
    /// check passes.
    pub fn swap_account_infos<'info>(ctx: &RaydiumCPMMSwapAccounts<'info>) -> (infos: [&'info AccountInfo; 13])
        ensures
            infos@[0] == ctx.payer,
            infos@[1] == ctx.authority,
            infos@[2] == ctx.amm_config,
            infos@[3] == ctx.pool_state,
            infos@[4] == ctx.input_token_account,
            infos@[5] == ctx.output_token_account,
            infos@[6] == ctx.input_vault,
            infos@[7] == ctx.output_vault,
            infos@[8] == ctx.input_token_program,
            infos@[9] == ctx.output_token_program,
            infos@[10] == ctx.input_token_mint,
            infos@[11] == ctx.output_token_mint,
            infos@[12] == ctx.observation_state,
    {
        [
            ctx.payer,
            ctx.authority,
            ctx.amm_config,
            ctx.pool_state,
            ctx.input_token_account,
            ctx.output_token_account,
            ctx.input_vault,
            ctx.output_vault,
            ctx.input_token_program,
            ctx.output_token_program,
            ctx.input_token_mint,
            ctx.output_token_mint,
            ctx.observation_state,
        ]
    }

    /// Assembles the CPI instruction from its parts: the Raydium CPMM
    /// program identifier, the given account metadata and the given payload,
    /// each pinned by the contract.
    pub fn swap_instruction<'a, 'b, 'd>(
        accounts: &'b [AccountMeta<'a>],
        data: &'d [u8],
    ) -> (ix: Instruction<'a, 'b, 'static, 'd>) where 'a: 'b
        ensures
            ix.program_id@ == RAYDIUM_CPMM_PROGRAM_ID@,
            ix.accounts@ == accounts@,
            ix.data@ == data@,
    {
        Instruction { program_id: &RAYDIUM_CPMM_PROGRAM_ID, data: data, accounts: accounts }
    }

    /// Executes a swap with PDA signing capability: encodes the instruction
    /// for `mode` and the two amounts, pairs it with the swap accounts, and
    /// forwards it to the runtime's signed-invoke primitive. The handed
    /// account list mirrors the metadata key for key, so the runtime's
    /// validation cannot reject the pairing: the call comes back `Ok` unless
    /// the runtime refuses an account borrow; a failure of the invoked
    /// program ends the transaction instead of returning.
    pub fn swap_signed<'info>(
        ctx: &RaydiumCPMMSwapAccounts<'info>,
        amount_in: u64,
        amount_out: u64,
        mode: Mode,
        signer_seeds: &[Signer],
    ) -> (r: ProgramResult)
        ensures
            r is Ok || (r matches Err(e) && e == ProgramError::AccountBorrowFailed),
    {
        let metas = Self::swap_account_metas(ctx);
        let infos = Self::swap_account_infos(ctx);
        let data = Self::instruction_data(mode, amount_in, amount_out);
        let instruction = Self::swap_instruction(array_as_slice(&metas), data.as_slice());
        proof {
            assert(infos_match_metas(infos@, instruction.accounts@));
        }
        invoke_signed_cpi(&instruction, &infos, signer_seeds)
    }

    /// Executes a swap without signing; as with [`RaydiumCPMM::swap_signed`],
    /// the call comes back `Ok` unless the runtime refuses an account
    /// borrow.
    pub fn swap<'info>(
        ctx: &RaydiumCPMMSwapAccounts<'info>,
        amount_in: u64,
        amount_out: u64,
        mode: Mode,
    ) -> (r: ProgramResult)
        ensures
            r is Ok || (r matches Err(e) && e == ProgramError::AccountBorrowFailed),
    {
        Self::swap_signed(ctx, amount_in, amount_out, mode, &[])
    }
}

} // verus!
