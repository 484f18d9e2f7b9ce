use spl_token_2022::solana_program::pubkey::Pubkey;
use std::str::FromStr;
use spl_transfer_hook_interface::instruction::TransferHookInstruction;
use txhookmagick::dispatch::{decode_execute, dispatch, fallback};
use txhookmagick::hook::{
    check_transfer_accounts, transfer_hook, AccountRef, HookError, Key, SubCall, TransferFacts, TransferHook,
};
use txhookmagick::run::{start, step, Step};

fn key(n: u8) -> Key {
    [n; 32]
}

fn program_id() -> Key {
    key(42)
}

fn derived(seeds: &[&[u8]]) -> (Key, u8) {
    let (k, b) = Pubkey::find_program_address(seeds, &Pubkey::new_from_array(program_id()));
    (k.to_bytes(), b)
}

fn facts() -> TransferFacts {
    let c = context();
    TransferFacts {
        source_mint: c.mint,
        source_owner: c.owner,
        destination_mint: c.mint,
        token_1_vault_mint: c.vault_1_mint,
        pool_amm_config: c.amm_config,
        pool_lp_mint: c.lp_mint,
    }
}

fn context() -> TransferHook {
    let (delegate, delegate_bump) = derived(&[b"delegate"]);
    let (list, _) = derived(&[b"extra-account-metas", &key(2)]);
    TransferHook {
        source_token: key(1),
        mint: key(2),
        destination_token: key(3),
        owner: key(4),
        extra_account_meta_list: list,
        vault_1_mint: key(6),
        delegate,
        delegate_bump,
        token_program_2022: spl_token_2022::id().to_bytes(),
        amm_config: key(9),
        pool_state: key(10),
        owner_lp_token: key(11),
        token_0_account: key(12),
        token_1_account: key(13),
        token_0_vault: key(14),
        token_1_vault: key(15),
        token_program: key(16),
        lp_mint: key(17),
        system_program: key(18),
        authority: key(19),
        pool_program: key(20),
    }
}

fn pool_payload(amount_in: u64) -> Vec<u8> {
    let mut v = amount_in.to_le_bytes().to_vec();
    v.extend_from_slice(&0u64.to_le_bytes());
    v
}

fn burn_payload(amount: u64) -> Vec<u8> {
    let mut v = vec![8u8];
    v.extend_from_slice(&amount.to_le_bytes());
    v
}

fn w(k: Key) -> AccountRef {
    AccountRef { key: k, is_signer: false, is_writable: true }
}

fn check_plan(calls: &[SubCall], burn: u64, swap: u64, deposit: u64) {
    let c = context();
    assert_eq!(calls.len(), 3);
    assert_eq!(calls[0].program_id, c.token_program_2022);
    assert_eq!(
        calls[0].accounts,
        vec![w(c.source_token), w(c.mint), AccountRef { key: c.delegate, is_signer: true, is_writable: false }]
    );
    assert_eq!(calls[0].data, burn_payload(burn));
    assert_eq!(calls[1].program_id, c.pool_program);
    assert_eq!(calls[1].data, pool_payload(swap));
    assert_eq!(calls[1].accounts.len(), 12);
    assert_eq!(calls[1].accounts[0], AccountRef { key: c.delegate, is_signer: true, is_writable: true });
    assert_eq!(calls[1].accounts[2], w(c.amm_config));
    assert_eq!(calls[1].accounts[11], w(c.vault_1_mint));
    assert_eq!(calls[2].program_id, c.pool_program);
    assert_eq!(calls[2].data, pool_payload(deposit));
    assert_eq!(calls[2].accounts.len(), 13);
    assert_eq!(calls[2].accounts[3], w(c.owner_lp_token));
    assert_eq!(calls[2].accounts[12], w(c.lp_mint));
    for call in calls {
        assert_eq!(call.signer_seeds, vec![b"delegate".to_vec(), vec![c.delegate_bump]]);
    }
}

#[test]
fn execute_payload_decodes_to_its_amount() {
    let data = TransferHookInstruction::Execute { amount: 500 }.pack();
    assert_eq!(decode_execute(&data), Ok(500));
}

#[test]
fn execute_of_five_hundred_plans_the_split() {
    let data = TransferHookInstruction::Execute { amount: 500 }.pack();
    let calls = fallback(&context(), &facts(), &program_id(), &data).unwrap();
    check_plan(&calls, 2, 1, 2);
}

#[test]
fn unknown_discriminator_is_refused_without_calls() {
    let mut data = TransferHookInstruction::Execute { amount: 500 }.pack();
    data[0] ^= 0xff;
    assert_eq!(decode_execute(&data), Err(HookError::InvalidInstructionData));
    assert_eq!(fallback(&context(), &facts(), &program_id(), &data).unwrap_err(), HookError::InvalidInstructionData);
}

#[test]
fn short_execute_payload_is_refused() {
    let data = TransferHookInstruction::Execute { amount: 500 }.pack();
    assert_eq!(decode_execute(&data[..12]), Err(HookError::InvalidInstructionData));
    assert_eq!(decode_execute(&[]), Err(HookError::InvalidInstructionData));
}

#[test]
fn dispatch_without_command_is_refused() {
    assert_eq!(dispatch(&context(), &facts(), &program_id(), None).unwrap_err(), HookError::InvalidInstructionData);
}

#[test]
fn transfer_hook_of_one_thousand() {
    let calls = transfer_hook(&context(), 1000).unwrap();
    check_plan(&calls, 5, 2, 3);
}

#[test]
fn transfer_hook_of_zero_plans_zero_amounts() {
    let calls = dispatch(&context(), &facts(), &program_id(), Some(0)).unwrap();
    check_plan(&calls, 0, 0, 0);
}

#[test]
fn transfer_hook_accepts_the_classic_token_program() {
    let mut c = context();
    c.token_program_2022 = <Pubkey as FromStr>::from_str("TokenkegQfeZyiNwAJbNbGKPFXCWuBvf9Ss623VQ5DA").unwrap().to_bytes();
    assert!(transfer_hook(&c, 100).is_ok());
}

#[test]
fn transfer_hook_refuses_a_foreign_token_program() {
    let mut c = context();
    c.token_program_2022 = key(99);
    assert_eq!(transfer_hook(&c, 1000).unwrap_err(), HookError::IncorrectProgramId);
}

fn run(results: &[bool]) -> (Step, usize) {
    let total = 3;
    let mut s = start(total);
    let mut issued = 0;
    while let Step::Issue(i) = s {
        issued += 1;
        s = step(total, i, results[i]);
    }
    (s, issued)
}

#[test]
fn deposit_failure_aborts_the_whole_invocation() {
    assert_eq!(run(&[true, true, false]), (Step::Abort, 3));
}

#[test]
fn burn_failure_issues_no_later_call() {
    assert_eq!(run(&[false, true, true]), (Step::Abort, 1));
}

#[test]
fn all_sub_calls_succeed_and_commit() {
    assert_eq!(run(&[true, true, true]), (Step::Commit, 3));
}

fn mismatch(c: &TransferHook, f: &TransferFacts) {
    assert_eq!(check_transfer_accounts(c, f, &program_id()), Err(HookError::AccountMismatch));
    assert_eq!(dispatch(c, f, &program_id(), Some(1000)).unwrap_err(), HookError::AccountMismatch);
}

#[test]
fn valid_accounts_pass_the_entry_check() {
    assert_eq!(check_transfer_accounts(&context(), &facts(), &program_id()), Ok(()));
}

#[test]
fn source_of_another_mint_is_refused() {
    let mut f = facts();
    f.source_mint = key(99);
    mismatch(&context(), &f);
}

#[test]
fn source_of_another_owner_is_refused() {
    let mut f = facts();
    f.source_owner = key(99);
    mismatch(&context(), &f);
}

#[test]
fn destination_of_another_mint_is_refused() {
    let mut f = facts();
    f.destination_mint = key(99);
    mismatch(&context(), &f);
}

#[test]
fn pool_of_another_configuration_is_refused() {
    let mut f = facts();
    f.pool_amm_config = key(99);
    mismatch(&context(), &f);
    let mut g = facts();
    g.pool_lp_mint = key(99);
    mismatch(&context(), &g);
}

#[test]
fn delegate_off_its_derived_address_is_refused() {
    let mut c = context();
    c.delegate = key(7);
    mismatch(&c, &facts());
    let mut d = context();
    d.delegate_bump = d.delegate_bump.wrapping_sub(1);
    mismatch(&d, &facts());
}

#[test]
fn list_off_its_derived_address_is_refused() {
    let mut c = context();
    c.extra_account_meta_list = key(5);
    mismatch(&c, &facts());
}

#[test]
fn bad_payload_is_refused_before_the_accounts() {
    let mut f = facts();
    f.source_mint = key(99);
    assert_eq!(dispatch(&context(), &f, &program_id(), None).unwrap_err(), HookError::InvalidInstructionData);
}

fn init_list_payload(count: u32) -> Vec<u8> {
    let mut data = TransferHookInstruction::InitializeExtraAccountMetaList { extra_account_metas: vec![] }.pack();
    data.truncate(8);
    data.extend_from_slice(&count.to_le_bytes());
    data
}

#[test]
fn init_list_tag_is_the_interface_tag() {
    assert_eq!(&init_list_payload(0)[..8], &[43u8, 34, 13, 49, 167, 88, 235, 235]);
}

#[test]
fn init_list_payload_with_short_records_is_refused() {
    let data = init_list_payload(5);
    assert_eq!(decode_execute(&data), Err(HookError::InvalidInstructionData));
    assert_eq!(fallback(&context(), &facts(), &program_id(), &data).unwrap_err(), HookError::InvalidInstructionData);
}

#[test]
fn empty_init_list_payload_is_not_execute() {
    assert_eq!(decode_execute(&init_list_payload(0)), Err(HookError::InvalidInstructionData));
}
