use vstd::prelude::*;
use vstd::arithmetic::power2::pow2;

use crate::address::{
    delegate_address, delegate_seed, delegate_seed_spec, delegate_seeds, is_derived, is_derived_key,
    meta_list_address, meta_list_seeds, same_key,
};
use crate::fee::{split, split_of, FeeSplit};
use spl_token_2022::solana_program::pubkey::Pubkey;

verus! {

/// A 32-byte account address.
pub type Key = [u8; 32];

/// One account handed to a sub-call, with its signer and writable flags.
#[derive(Clone, Copy, Debug, PartialEq, Eq)]
pub struct AccountRef {
    pub key: Key,
    pub is_signer: bool,
    pub is_writable: bool,
}

/// A call into another program: its address, its accounts in order, its
/// payload, and the seeds with which this program signs for it.
#[derive(Clone, Debug)]
pub struct SubCall {
    pub program_id: Key,
    pub accounts: Vec<AccountRef>,
    pub data: Vec<u8>,
    pub signer_seeds: Vec<Vec<u8>>,
}

/// The failures of this program.
#[derive(Clone, Copy, Debug, PartialEq, Eq, Structural)]
pub enum HookError {
    /// The callback payload is not an `Execute` command.
    InvalidInstructionData,
    /// The token program named in the accounts is neither token program.
    IncorrectProgramId,
    /// The extra account list of this asset has been published already.
    AlreadyInitialized,
    /// An account does not stand in the relation the hook requires: a wrong
    /// mint or owner, or an address that is not the derived one.
    AccountMismatch,
}

/// The accounts that the runtime hands to the hook on a transfer, in the
/// order it hands them, with the bump of the delegated authority and the
/// address of the liquidity-pool program.
#[derive(Clone, Copy, Debug, PartialEq, Eq)]
pub struct TransferHook {
    pub source_token: Key,
    pub mint: Key,
    pub destination_token: Key,
    pub owner: Key,
    pub extra_account_meta_list: Key,
    pub vault_1_mint: Key,
    pub delegate: Key,
    pub delegate_bump: u8,
    pub token_program_2022: Key,
    pub amm_config: Key,
    pub pool_state: Key,
    pub owner_lp_token: Key,
    pub token_0_account: Key,
    pub token_1_account: Key,
    pub token_0_vault: Key,
    pub token_1_vault: Key,
    pub token_program: Key,
    pub lp_mint: Key,
    pub system_program: Key,
    pub authority: Key,
    pub pool_program: Key,
}

/// What the hook reads from the accounts' contents: the mints and owner of
/// the token accounts, and the configuration and LP mint the pool state names.
#[derive(Clone, Copy, Debug, PartialEq, Eq)]
pub struct TransferFacts {
    pub source_mint: Key,
    pub source_owner: Key,
    pub destination_mint: Key,
    pub token_1_vault_mint: Key,
    pub pool_amm_config: Key,
    pub pool_lp_mint: Key,
}

/// Whether the accounts of a transfer stand in the relations the hook
/// requires, for the program at `program_id`.
pub open spec fn transfer_accounts_valid(h: TransferHook, f: TransferFacts, program_id: Key) -> bool {
    &&& f.source_mint@ == h.mint@
    &&& f.source_owner@ == h.owner@
    &&& f.destination_mint@ == h.mint@
    &&& is_derived_key(h.extra_account_meta_list, meta_list_seeds(h.mint), program_id)
    &&& f.token_1_vault_mint@ == h.vault_1_mint@
    &&& is_derived(h.delegate, h.delegate_bump, delegate_seeds(), program_id)
    &&& f.pool_amm_config@ == h.amm_config@
    &&& f.pool_lp_mint@ == h.lp_mint@
}

/// Checks, once at entry, that the accounts of a transfer stand in the
/// relations the hook requires.
pub fn check_transfer_accounts(h: &TransferHook, f: &TransferFacts, program_id: &Key) -> (r: Result<(), HookError>)
    ensures
        r is Ok <==> transfer_accounts_valid(*h, *f, *program_id),
        r is Err ==> r == Err::<(), HookError>(HookError::AccountMismatch),
{
    let plain = same_key(&f.source_mint, &h.mint) && same_key(&f.source_owner, &h.owner)
        && same_key(&f.destination_mint, &h.mint) && same_key(&f.token_1_vault_mint, &h.vault_1_mint)
        && same_key(&f.pool_amm_config, &h.amm_config) && same_key(&f.pool_lp_mint, &h.lp_mint);
    if !plain {
        return Err(HookError::AccountMismatch);
    }
    let list_ok = match meta_list_address(&h.mint, program_id) {
        Some(p) => same_key(&p.0, &h.extra_account_meta_list),
        None => false,
    };
    let delegate_ok = match delegate_address(program_id) {
        Some(p) => same_key(&p.0, &h.delegate) && p.1 == h.delegate_bump,
        None => false,
    };
    if list_ok && delegate_ok {
        Ok(())
    } else {
        Err(HookError::AccountMismatch)
    }
}

/// The seeds with which this program signs as the delegated authority.
pub open spec fn delegate_signer(bump: u8) -> Seq<Seq<u8>> {
    seq![delegate_seed_spec(), seq![bump]]
}

/// Builds the signer seeds of the delegated authority.
pub fn delegate_signer_seeds(bump: u8) -> (r: Vec<Vec<u8>>)
    ensures
        r.deep_view() == delegate_signer(bump),
{
    let r = vec![delegate_seed(), vec![bump]];
    assert(r@[0].deep_view() =~= delegate_seed_spec());
    assert(r@[1].deep_view() =~= seq![bump]);
    assert(r.deep_view() =~= delegate_signer(bump));
    r
}

/// The four little-endian bytes of `v`.
pub open spec fn le_u32(v: u32) -> Seq<u8> {
    Seq::new(4, |i: int| ((v as nat / pow2((8 * i) as nat)) % 256) as u8)
}

/// The eight little-endian bytes of `v`.
pub open spec fn le_u64(v: u64) -> Seq<u8> {
    Seq::new(8, |i: int| ((v as nat / pow2((8 * i) as nat)) % 256) as u8)
}

/// The address of the Token-2022 program
/// (TokenzQdBNbLqP5VEhdkAS6EPFLC1PHnBqCXEpPxuEb).
pub open spec fn token_2022_program_id() -> Seq<u8> {
    seq![
        6u8, 221, 246, 225, 238, 117, 143, 222, 24, 66, 93, 188, 228, 108, 205, 218, 182, 26, 252, 77,
        131, 185, 13, 39, 254, 189, 249, 40, 216, 161, 139, 252,
    ]
}

/// The address of the original token program
/// (TokenkegQfeZyiNwAJbNbGKPFXCWuBvf9Ss623VQ5DA).
pub open spec fn token_program_id() -> Seq<u8> {
    seq![
        6u8, 221, 246, 225, 215, 101, 161, 147, 217, 203, 225, 70, 206, 235, 121, 172, 28, 180, 133, 237,
        95, 91, 55, 145, 58, 140, 245, 133, 126, 255, 0, 169,
    ]
}

/// Whether `id` is the address of one of the two token programs.
pub open spec fn is_token_program(id: Seq<u8>) -> bool {
    id == token_2022_program_id() || id == token_program_id()
}

/// A writable account that does not sign.
pub open spec fn writable(key: Key) -> AccountRef {
    AccountRef { key, is_signer: false, is_writable: true }
}

/// The accounts of the burn: the source token account and the mint are
/// debited, the delegated authority authorises.
pub open spec fn burn_accounts(h: TransferHook) -> Seq<AccountRef> {
    seq![
        writable(h.source_token),
        writable(h.mint),
        AccountRef { key: h.delegate, is_signer: true, is_writable: false },
    ]
}

/// The accounts of the swap, in the order the pool program reads them.
pub open spec fn swap_accounts(h: TransferHook) -> Seq<AccountRef> {
    seq![
        AccountRef { key: h.delegate, is_signer: true, is_writable: true },
        writable(h.authority),
        writable(h.amm_config),
        writable(h.pool_state),
        writable(h.token_0_account),
        writable(h.token_1_account),
        writable(h.token_0_vault),
        writable(h.token_1_vault),
        writable(h.token_program_2022),
        writable(h.token_program),
        writable(h.mint),
        writable(h.vault_1_mint),
    ]
}

/// The accounts of the deposit, in the order the pool program reads them.
pub open spec fn deposit_accounts(h: TransferHook) -> Seq<AccountRef> {
    seq![
        AccountRef { key: h.delegate, is_signer: true, is_writable: true },
        writable(h.authority),
        writable(h.pool_state),
        writable(h.owner_lp_token),
        writable(h.token_0_account),
        writable(h.token_1_account),
        writable(h.token_0_vault),
        writable(h.token_1_vault),
        writable(h.token_program),
        writable(h.token_program_2022),
        writable(h.mint),
        writable(h.vault_1_mint),
        writable(h.lp_mint),
    ]
}

/// The payload of a pool call: the amount put in, then the least accepted
/// out, which is always zero.
pub open spec fn pool_payload(amount_in: u64) -> Seq<u8> {
    le_u64(amount_in) + le_u64(0)
}

/// The three sub-calls that a transfer of `amount` asks for, in order: burn,
/// swap, deposit, each signed by the delegated authority.
pub open spec fn planned_calls(h: TransferHook, amount: u64, calls: Seq<SubCall>) -> bool {
    let s = split_of(amount);
    &&& calls.len() == 3
    &&& forall|i: int| 0 <= i < 3 ==> calls[i].signer_seeds.deep_view() == delegate_signer(h.delegate_bump)
    &&& calls[0].program_id == h.token_program_2022
    &&& calls[0].accounts@ == burn_accounts(h)
    &&& calls[0].data@ == seq![8u8] + le_u64(s.burn_amount)
    &&& calls[1].program_id == h.pool_program
    &&& calls[1].accounts@ == swap_accounts(h)
    &&& calls[1].data@ == pool_payload(s.swap_amount)
    &&& calls[2].program_id == h.pool_program
    &&& calls[2].accounts@ == deposit_accounts(h)
    &&& calls[2].data@ == pool_payload(s.deposit_amount)
}

/// Relies on spl_token_2022::instruction::burn: the instruction that burns
/// `amount` from `account`, refused unless `token_program` is a token program.
#[verifier::external_body]
fn burn_instruction(token_program: &Key, account: &Key, mint: &Key, authority: &Key, amount: u64)
    -> (r: Option<(Key, Vec<AccountRef>, Vec<u8>)>)
    ensures
        r.is_some() == is_token_program(token_program@),
        r matches Some(c) ==> c.0 == *token_program && c.1@ == seq![
            writable(*account),
            writable(*mint),
            AccountRef { key: *authority, is_signer: true, is_writable: false },
        ] && c.2@ == seq![8u8] + le_u64(amount),
{
    let (p, a, m, o) = (Pubkey::new_from_array(*token_program), Pubkey::new_from_array(*account),
        Pubkey::new_from_array(*mint), Pubkey::new_from_array(*authority));
    spl_token_2022::instruction::burn(&p, &a, &m, &o, &[], amount).ok().map(|ix| (
        ix.program_id.to_bytes(),
        ix.accounts.iter().map(|x| AccountRef {
            key: x.pubkey.to_bytes(), is_signer: x.is_signer, is_writable: x.is_writable,
        }).collect(),
        ix.data,
    ))
}

/// Relies on anchor_lang::AnchorSerialize (borsh): a pair of `u64` is written
/// as the little-endian bytes of each, in order, and writing into a `Vec`
/// does not fail.
#[verifier::external_body]
fn pool_args(amount_in: u64, minimum_amount_out: u64) -> (r: Option<Vec<u8>>)
    ensures
        r.is_some(),
        r.unwrap()@ == le_u64(amount_in) + le_u64(minimum_amount_out),
{
    anchor_lang::AnchorSerialize::try_to_vec(&(amount_in, minimum_amount_out)).ok()
}

impl TransferHook {
    /// A pool call with the standard payload for `amount_in` over `accounts`.
    fn pool_call(&self, accounts: Vec<AccountRef>, amount_in: u64) -> (r: SubCall)
        ensures
            r.program_id == self.pool_program,
            r.accounts@ == accounts@,
            r.data@ == pool_payload(amount_in),
            r.signer_seeds.deep_view() == delegate_signer(self.delegate_bump),
    {
        let data = pool_args(amount_in, 0).unwrap();
        let signer_seeds = delegate_signer_seeds(self.delegate_bump);
        SubCall { program_id: self.pool_program, accounts, data, signer_seeds }
    }
}

/// Plans the fee on a transfer of `amount`: the burn, swap and deposit calls
/// in that order, each signed by the delegated authority. Fails only when the
/// token program account is not a token program. The swap accepts any output
/// at the pool's current price: its least accepted output is zero, so it has
/// no protection against slippage.
pub fn transfer_hook(ctx: &TransferHook, amount: u64) -> (r: Result<Vec<SubCall>, HookError>)
    ensures
        r is Err <==> !is_token_program(ctx.token_program_2022@),
        r is Err ==> r == Err::<Vec<SubCall>, HookError>(HookError::IncorrectProgramId),
        r matches Ok(calls) ==> planned_calls(*ctx, amount, calls@),
{
    let s: FeeSplit = split(amount);
    let burn = match burn_instruction(
        &ctx.token_program_2022,
        &ctx.source_token,
        &ctx.mint,
        &ctx.delegate,
        s.burn_amount,
    ) {
        Some(c) => SubCall {
            program_id: c.0,
            accounts: c.1,
            data: c.2,
            signer_seeds: delegate_signer_seeds(ctx.delegate_bump),
        },
        None => return Err(HookError::IncorrectProgramId),
    };
    let d = ctx.delegate;
    let swap_list = vec![
        AccountRef { key: d, is_signer: true, is_writable: true },
        AccountRef { key: ctx.authority, is_signer: false, is_writable: true },
        AccountRef { key: ctx.amm_config, is_signer: false, is_writable: true },
        AccountRef { key: ctx.pool_state, is_signer: false, is_writable: true },
        AccountRef { key: ctx.token_0_account, is_signer: false, is_writable: true },
        AccountRef { key: ctx.token_1_account, is_signer: false, is_writable: true },
        AccountRef { key: ctx.token_0_vault, is_signer: false, is_writable: true },
        AccountRef { key: ctx.token_1_vault, is_signer: false, is_writable: true },
        AccountRef { key: ctx.token_program_2022, is_signer: false, is_writable: true },
        AccountRef { key: ctx.token_program, is_signer: false, is_writable: true },
        AccountRef { key: ctx.mint, is_signer: false, is_writable: true },
        AccountRef { key: ctx.vault_1_mint, is_signer: false, is_writable: true },
    ];
    let deposit_list = vec![
        AccountRef { key: d, is_signer: true, is_writable: true },
        AccountRef { key: ctx.authority, is_signer: false, is_writable: true },
        AccountRef { key: ctx.pool_state, is_signer: false, is_writable: true },
        AccountRef { key: ctx.owner_lp_token, is_signer: false, is_writable: true },
        AccountRef { key: ctx.token_0_account, is_signer: false, is_writable: true },
        AccountRef { key: ctx.token_1_account, is_signer: false, is_writable: true },
        AccountRef { key: ctx.token_0_vault, is_signer: false, is_writable: true },
        AccountRef { key: ctx.token_1_vault, is_signer: false, is_writable: true },
        AccountRef { key: ctx.token_program, is_signer: false, is_writable: true },
        AccountRef { key: ctx.token_program_2022, is_signer: false, is_writable: true },
        AccountRef { key: ctx.mint, is_signer: false, is_writable: true },
        AccountRef { key: ctx.vault_1_mint, is_signer: false, is_writable: true },
        AccountRef { key: ctx.lp_mint, is_signer: false, is_writable: true },
    ];
    let swap = ctx.pool_call(swap_list, s.swap_amount);
    let deposit = ctx.pool_call(deposit_list, s.deposit_amount);
    let calls = vec![burn, swap, deposit];
    proof {
        assert(calls@[1].accounts@ =~= swap_accounts(*ctx));
        assert(calls@[2].accounts@ =~= deposit_accounts(*ctx));
    }
    Ok(calls)
}

} // verus!
