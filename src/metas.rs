use vstd::prelude::*;

use crate::address::{
    delegate_address, delegate_seed, delegate_seed_spec, delegate_seeds, is_derived_key, meta_list_address,
    meta_list_seeds, same_key,
};
use crate::dispatch::execute_tag;
use crate::hook::{le_u32, HookError, Key, TransferHook};
use spl_tlv_account_resolution::account::ExtraAccountMeta;
use spl_tlv_account_resolution::seeds::Seed;
use spl_tlv_account_resolution::state::ExtraAccountMetaList;
use spl_token_2022::solana_program::pubkey::Pubkey;
use spl_transfer_hook_interface::instruction::ExecuteInstruction;

verus! {

/// One entry of a published extra account list: either a literal address
/// (`discriminator` 0) or a seed recipe for an address of this program
/// (`discriminator` 1), with the signer and writable flags.
#[derive(Clone, Copy, Debug, PartialEq, Eq)]
pub struct ExtraAccountRecord {
    pub discriminator: u8,
    pub address_config: Key,
    pub is_signer: bool,
    pub is_writable: bool,
}

/// The accounts known when the extra account list of an asset is published.
#[derive(Clone, Copy, Debug, PartialEq, Eq)]
pub struct InitializeExtraAccountMetaList {
    pub payer: Key,
    pub extra_account_meta_list: Key,
    pub mint: Key,
    pub vault_1_mint: Key,
    pub delegate: Key,
    pub token_program_2022: Key,
    pub amm_config: Key,
    pub pool_state: Key,
    pub owner_lp_token: Key,
    pub token_0_account: Key,
    pub token_1_account: Key,
    pub token_0_vault: Key,
    pub token_1_vault: Key,
    pub token_program: Key,
    pub lp_mint: Key,
    pub system_program: Key,
    pub authority: Key,
}

/// The storage account of an asset's extra account list: once `initialized`
/// it holds the published `records` and their encoding `data`, which is what
/// the runtime reads.
#[derive(Clone, Debug)]
pub struct MetaListAccount {
    pub initialized: bool,
    pub records: Vec<ExtraAccountRecord>,
    pub data: Vec<u8>,
}

/// Number of entries in every published list.
pub const EXTRA_ACCOUNT_COUNT: usize = 13;

/// An entry that names `key` itself.
pub open spec fn literal(key: Key, is_signer: bool, is_writable: bool) -> ExtraAccountRecord {
    ExtraAccountRecord { discriminator: 0, address_config: key, is_signer, is_writable }
}

/// The seed recipe of one literal seed of at most 30 bytes: its tag 1, its
/// length, its bytes, then zeros.
pub open spec fn literal_seed_config(bytes: Seq<u8>) -> Seq<u8> {
    seq![1u8, bytes.len() as u8] + bytes + Seq::new((30 - bytes.len()) as nat, |i: int| 0u8)
}

/// The delegated authority's entry: a seed recipe of the literal "delegate",
/// writable, as the swap and the deposit pass it.
pub open spec fn is_delegate_record(r: ExtraAccountRecord) -> bool {
    &&& r.discriminator == 1
    &&& r.address_config@ == literal_seed_config(delegate_seed_spec())
    &&& !r.is_signer
    &&& r.is_writable
}

/// Whether `rs` is the list published for an asset, in the order that the
/// hook reads it.
pub open spec fn is_published_list(c: InitializeExtraAccountMetaList, rs: Seq<ExtraAccountRecord>) -> bool {
    &&& rs.len() == EXTRA_ACCOUNT_COUNT
    &&& rs[0] == literal(c.mint, false, true)
    &&& rs[1] == literal(c.vault_1_mint, false, true)
    &&& is_delegate_record(rs[2])
    &&& rs[3] == literal(c.token_program_2022, false, true)
    &&& rs[4] == literal(c.amm_config, false, true)
    &&& rs[5] == literal(c.pool_state, false, true)
    &&& rs[6] == literal(c.owner_lp_token, false, true)
    &&& rs[7] == literal(c.token_0_account, false, true)
    &&& rs[8] == literal(c.token_1_account, false, true)
    &&& rs[9] == literal(c.token_0_vault, false, true)
    &&& rs[10] == literal(c.token_1_vault, false, true)
    &&& rs[11] == literal(c.token_program, false, true)
    &&& rs[12] == literal(c.authority, false, true)
}

/// Relies on ExtraAccountMeta::new_with_pubkey of spl_tlv_account_resolution:
/// an entry of kind 0 that holds the address as it is, and never fails.
#[verifier::external_body]
fn meta_with_pubkey(key: &Key, is_signer: bool, is_writable: bool) -> (r: Option<ExtraAccountRecord>)
    ensures
        r == Some(literal(*key, is_signer, is_writable)),
{
    ExtraAccountMeta::new_with_pubkey(&Pubkey::new_from_array(*key), is_signer, is_writable).ok().map(
        |m| ExtraAccountRecord {
            discriminator: m.discriminator,
            address_config: m.address_config,
            is_signer: m.is_signer.into(),
            is_writable: m.is_writable.into(),
        },
    )
}

/// Relies on ExtraAccountMeta::new_with_seeds of spl_tlv_account_resolution,
/// with the one seed `Seed::Literal`: an entry of kind 1 whose recipe is the
/// tag 1, the length, the bytes and zeros after them.
#[verifier::external_body]
fn meta_with_literal_seed(bytes: &Vec<u8>, is_signer: bool, is_writable: bool) -> (r: Option<ExtraAccountRecord>)
    requires
        bytes@.len() <= 30,
    ensures
        r is Some,
        r.unwrap().discriminator == 1,
        r.unwrap().address_config@ == literal_seed_config(bytes@),
        r.unwrap().is_signer == is_signer,
        r.unwrap().is_writable == is_writable,
{
    let seeds = [Seed::Literal { bytes: bytes.clone() }];
    ExtraAccountMeta::new_with_seeds(&seeds, is_signer, is_writable).ok().map(|m| ExtraAccountRecord {
        discriminator: m.discriminator,
        address_config: m.address_config,
        is_signer: m.is_signer.into(),
        is_writable: m.is_writable.into(),
    })
}

/// Relies on ExtraAccountMetaList::size_of of spl_tlv_account_resolution: a
/// 12-byte entry header, a 4-byte count, then 35 bytes for each entry.
#[verifier::external_body]
fn meta_list_size(num_items: usize) -> (r: Option<usize>)
    ensures
        35 * num_items + 16 <= usize::MAX ==> r == Some((35 * num_items + 16) as usize),
{
    ExtraAccountMetaList::size_of(num_items).ok()
}

/// The 35 bytes of one record: its kind, its address or recipe, and its two
/// flags.
pub open spec fn record_bytes(r: ExtraAccountRecord) -> Seq<u8> {
    seq![r.discriminator] + r.address_config@ + seq![
        if r.is_signer { 1u8 } else { 0u8 },
        if r.is_writable { 1u8 } else { 0u8 },
    ]
}

/// The records' bytes, one after another.
pub open spec fn records_bytes(rs: Seq<ExtraAccountRecord>) -> Seq<u8>
    decreases rs.len(),
{
    if rs.len() == 0 {
        Seq::empty()
    } else {
        records_bytes(rs.drop_last()) + record_bytes(rs.last())
    }
}

/// The bytes of the extra account list holding `records`, as the transfer-hook
/// runtime reads them: the `Execute` tag, the entry's length and the record
/// count as little-endian 32-bit numbers, then the records.
pub open spec fn meta_list_bytes(records: Seq<ExtraAccountRecord>) -> Seq<u8> {
    execute_tag() + le_u32((35 * records.len() + 4) as u32) + le_u32(records.len() as u32)
        + records_bytes(records)
}

/// Relies on ExtraAccountMetaList::init of spl_tlv_account_resolution, for the
/// `Execute` command, on a zeroed buffer of exactly the size that
/// `ExtraAccountMetaList::size_of` gives: the entry fits and is written, as
/// long as its length fits the 32-bit length field.
#[verifier::external_body]
fn encode_meta_list(records: &Vec<ExtraAccountRecord>, space: usize) -> (r: Option<Vec<u8>>)
    requires
        space == 35 * records@.len() + 16,
        35 * records@.len() + 4 <= u32::MAX,
    ensures
        r is Some,
        r.unwrap()@ == meta_list_bytes(records@),
        r.unwrap()@.len() == space,
{
    let metas: Vec<ExtraAccountMeta> = records.iter().map(|r| {
        let mut m = ExtraAccountMeta::default();
        (m.discriminator, m.address_config) = (r.discriminator, r.address_config);
        (m.is_signer, m.is_writable) = (r.is_signer.into(), r.is_writable.into());
        m
    }).collect();
    let mut data = vec![0u8; space];
    ExtraAccountMetaList::init::<ExecuteInstruction>(&mut data, &metas).ok().map(|_| data)
}

/// The storage size of a published list of 13 entries.
pub open spec fn published_space() -> usize {
    (35 * 13 + 16) as usize
}

/// What publication reads from the accounts' contents: the mints of the two
/// vaults, and the configuration and LP mint the pool state names.
#[derive(Clone, Copy, Debug, PartialEq, Eq)]
pub struct InitFacts {
    pub token_0_vault_mint: Key,
    pub token_1_vault_mint: Key,
    pub pool_amm_config: Key,
    pub pool_lp_mint: Key,
}

/// Whether the accounts of a publication stand in the relations required, for
/// the program at `program_id`: the list and delegate accounts are at their
/// derived addresses, and the mints and pool accounts agree with the vaults
/// and the pool state.
pub open spec fn init_accounts_valid(c: InitializeExtraAccountMetaList, f: InitFacts, program_id: Key) -> bool {
    &&& is_derived_key(c.extra_account_meta_list, meta_list_seeds(c.mint), program_id)
    &&& is_derived_key(c.delegate, delegate_seeds(), program_id)
    &&& f.token_0_vault_mint@ == c.mint@
    &&& f.token_1_vault_mint@ == c.vault_1_mint@
    &&& f.pool_amm_config@ == c.amm_config@
    &&& f.pool_lp_mint@ == c.lp_mint@
}

/// Checks that the accounts of a publication stand in the relations required.
pub fn check_init_accounts(c: &InitializeExtraAccountMetaList, f: &InitFacts, program_id: &Key) -> (r: Result<(), HookError>)
    ensures
        r is Ok <==> init_accounts_valid(*c, *f, *program_id),
        r is Err ==> r == Err::<(), HookError>(HookError::AccountMismatch),
{
    let plain = same_key(&f.token_0_vault_mint, &c.mint) && same_key(&f.token_1_vault_mint, &c.vault_1_mint)
        && same_key(&f.pool_amm_config, &c.amm_config) && same_key(&f.pool_lp_mint, &c.lp_mint);
    if !plain {
        return Err(HookError::AccountMismatch);
    }
    let list_ok = match meta_list_address(&c.mint, program_id) {
        Some(p) => same_key(&p.0, &c.extra_account_meta_list),
        None => false,
    };
    let delegate_ok = match delegate_address(program_id) {
        Some(p) => same_key(&p.0, &c.delegate),
        None => false,
    };
    if list_ok && delegate_ok {
        Ok(())
    } else {
        Err(HookError::AccountMismatch)
    }
}

/// What one publication does: with accounts out of relation it fails with
/// `AccountMismatch`, on an account that holds a list already with
/// `AlreadyInitialized`, and either way changes nothing; otherwise it succeeds
/// and the account holds the list of `c`.
pub open spec fn publish_post(
    c: InitializeExtraAccountMetaList,
    f: InitFacts,
    program_id: Key,
    before: MetaListAccount,
    r: Result<usize, HookError>,
    after: MetaListAccount,
) -> bool {
    if !init_accounts_valid(c, f, program_id) {
        r == Err::<usize, HookError>(HookError::AccountMismatch) && after == before
    } else if before.initialized {
        r == Err::<usize, HookError>(HookError::AlreadyInitialized) && after == before
    } else {
        &&& r == Ok::<usize, HookError>(published_space())
        &&& after.initialized
        &&& is_published_list(c, after.records@)
        &&& after.data@ == meta_list_bytes(after.records@)
        &&& after.data@.len() == published_space()
    }
}

/// Publishing twice for one asset: the first call succeeds and stores the
/// list, the second fails with `AlreadyInitialized` and leaves the stored
/// list as the first call wrote it.
pub proof fn lemma_publish_twice(
    c: InitializeExtraAccountMetaList,
    f: InitFacts,
    program_id: Key,
    a0: MetaListAccount,
    r1: Result<usize, HookError>,
    a1: MetaListAccount,
    r2: Result<usize, HookError>,
    a2: MetaListAccount,
)
    requires
        init_accounts_valid(c, f, program_id),
        !a0.initialized,
        publish_post(c, f, program_id, a0, r1, a1),
        publish_post(c, f, program_id, a1, r2, a2),
    ensures
        r1 is Ok,
        is_published_list(c, a1.records@),
        r2 == Err::<usize, HookError>(HookError::AlreadyInitialized),
        a2 == a1,
{
}

/// The address the runtime puts in the account set for a record: the literal
/// address, or for a seed recipe the address derived from it, `derived`.
pub open spec fn resolve_record(r: ExtraAccountRecord, derived: Key) -> Key {
    if r.discriminator == 0 {
        r.address_config
    } else {
        derived
    }
}

/// The accounts of a transfer read by position from the set the runtime
/// assembles: the transfer's five accounts, then the published list. The
/// bump, the liquidity mint, the system program and the pool program come
/// from the pool's configuration.
pub open spec fn hook_of_keys(
    keys: Seq<Key>,
    delegate_bump: u8,
    lp_mint: Key,
    system_program: Key,
    pool_program: Key,
) -> Option<TransferHook> {
    if keys.len() != 18 {
        None
    } else {
        Some(
            TransferHook {
                source_token: keys[0],
                mint: keys[1],
                destination_token: keys[2],
                owner: keys[3],
                extra_account_meta_list: keys[4],
                vault_1_mint: keys[6],
                delegate: keys[7],
                delegate_bump,
                token_program_2022: keys[8],
                amm_config: keys[9],
                pool_state: keys[10],
                owner_lp_token: keys[11],
                token_0_account: keys[12],
                token_1_account: keys[13],
                token_0_vault: keys[14],
                token_1_vault: keys[15],
                token_program: keys[16],
                lp_mint,
                system_program,
                authority: keys[17],
                pool_program,
            },
        )
    }
}

/// Reads the accounts of a transfer by position from the set the runtime
/// assembled from the published list.
pub fn from_account_keys(
    keys: &Vec<Key>,
    delegate_bump: u8,
    lp_mint: Key,
    system_program: Key,
    pool_program: Key,
) -> (r: Option<TransferHook>)
    ensures
        r == hook_of_keys(keys@, delegate_bump, lp_mint, system_program, pool_program),
{
    if keys.len() != 18 {
        return None;
    }
    Some(
        TransferHook {
            source_token: keys[0],
            mint: keys[1],
            destination_token: keys[2],
            owner: keys[3],
            extra_account_meta_list: keys[4],
            vault_1_mint: keys[6],
            delegate: keys[7],
            delegate_bump,
            token_program_2022: keys[8],
            amm_config: keys[9],
            pool_state: keys[10],
            owner_lp_token: keys[11],
            token_0_account: keys[12],
            token_1_account: keys[13],
            token_0_vault: keys[14],
            token_1_vault: keys[15],
            token_program: keys[16],
            lp_mint,
            system_program,
            authority: keys[17],
            pool_program,
        },
    )
}

/// The order of the published list is the order the hook reads: the account
/// set that the runtime assembles from it gives the hook, at every position,
/// the account that publication named for that role.
pub proof fn lemma_published_order_matches(
    c: InitializeExtraAccountMetaList,
    rs: Seq<ExtraAccountRecord>,
    base: Seq<Key>,
    delegate_bump: u8,
    pool_program: Key,
)
    requires
        is_published_list(c, rs),
        base.len() == 5,
        base[1] == c.mint,
    ensures
        hook_of_keys(
            base + rs.map_values(|r: ExtraAccountRecord| resolve_record(r, c.delegate)),
            delegate_bump,
            c.lp_mint,
            c.system_program,
            pool_program,
        ) == Some(
            TransferHook {
                source_token: base[0],
                mint: c.mint,
                destination_token: base[2],
                owner: base[3],
                extra_account_meta_list: base[4],
                vault_1_mint: c.vault_1_mint,
                delegate: c.delegate,
                delegate_bump,
                token_program_2022: c.token_program_2022,
                amm_config: c.amm_config,
                pool_state: c.pool_state,
                owner_lp_token: c.owner_lp_token,
                token_0_account: c.token_0_account,
                token_1_account: c.token_1_account,
                token_0_vault: c.token_0_vault,
                token_1_vault: c.token_1_vault,
                token_program: c.token_program,
                lp_mint: c.lp_mint,
                system_program: c.system_program,
                authority: c.authority,
                pool_program,
            },
        ),
{
    let keys = base + rs.map_values(|r: ExtraAccountRecord| resolve_record(r, c.delegate));
    assert(keys.len() == 18);
    assert(keys[5] == c.mint);
}

/// Publishes the extra account list of the asset `ctx.mint` into `account`,
/// once the accounts are checked. The list is written once: on an account that holds one already it fails
/// with `AlreadyInitialized` and changes nothing. Returns the storage size.
pub fn initialize_extra_account_meta_list(
    ctx: &InitializeExtraAccountMetaList,
    facts: &InitFacts,
    program_id: &Key,
    account: &mut MetaListAccount,
) -> (r: Result<usize, HookError>)
    ensures
        publish_post(*ctx, *facts, *program_id, *old(account), r, *final(account)),
{
    if let Err(e) = check_init_accounts(ctx, facts, program_id) {
        return Err(e);
    }
    if account.initialized {
        return Err(HookError::AlreadyInitialized);
    }
    let seed = delegate_seed();
    let delegate = meta_with_literal_seed(&seed, false, true).unwrap();
    let mut records: Vec<ExtraAccountRecord> = Vec::new();
    let keys = [
        ctx.mint, ctx.vault_1_mint, ctx.token_program_2022, ctx.amm_config, ctx.pool_state,
        ctx.owner_lp_token, ctx.token_0_account, ctx.token_1_account, ctx.token_0_vault,
        ctx.token_1_vault, ctx.token_program, ctx.authority,
    ];
    let mut i: usize = 0;
    while i < 12
        invariant
            i <= 12,
            keys@ == seq![
                ctx.mint, ctx.vault_1_mint, ctx.token_program_2022, ctx.amm_config, ctx.pool_state,
                ctx.owner_lp_token, ctx.token_0_account, ctx.token_1_account, ctx.token_0_vault,
                ctx.token_1_vault, ctx.token_program, ctx.authority,
            ],
            records@.len() == if i <= 2 { i as int } else { i + 1 },
            is_delegate_record(delegate),
            forall|j: int| 0 <= j < i ==> records@[if j < 2 { j } else { j + 1 }] == literal(keys@[j], false, true),
            i > 2 ==> records@[2] == delegate,
        decreases 12 - i,
    {
        if i == 2 {
            records.push(delegate);
        }
        records.push(meta_with_pubkey(&keys[i], false, true).unwrap());
        i = i + 1;
    }
    let space = meta_list_size(records.len()).unwrap();
    let data = encode_meta_list(&records, space).unwrap();
    account.initialized = true;
    account.records = records;
    account.data = data;
    Ok(space)
}

} // verus!
