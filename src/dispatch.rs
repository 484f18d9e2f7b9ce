use vstd::prelude::*;

use crate::hook::{
    check_transfer_accounts, is_token_program, le_u64, planned_calls, transfer_accounts_valid, transfer_hook,
    HookError, Key, SubCall, TransferFacts, TransferHook,
};
use spl_transfer_hook_interface::instruction::TransferHookInstruction;

verus! {

/// The discriminator of the transfer-hook `Execute` command: the first eight
/// bytes of the SHA-256 digest of "spl-transfer-hook-interface:execute".
pub open spec fn execute_tag() -> Seq<u8> {
    seq![105u8, 37, 101, 197, 75, 251, 102, 26]
}

/// Whether the eight bytes `tag` are the discriminator of `Execute`.
pub open spec fn is_execute_tag(tag: Seq<u8>) -> bool {
    tag == execute_tag()
}

/// The discriminator of the transfer-hook `InitializeExtraAccountMetaList`
/// command: the first eight bytes of the SHA-256 digest of
/// "spl-transfer-hook-interface:initialize-extra-account-metas".
pub open spec fn init_list_tag() -> Seq<u8> {
    seq![43u8, 34, 13, 49, 167, 88, 235, 235]
}

/// Whether `data` begins with the `InitializeExtraAccountMetaList` tag.
pub open spec fn has_init_list_tag(data: Seq<u8>) -> bool {
    data.len() >= 8 && data.subrange(0, 8) == init_list_tag()
}

/// Tells whether `data` begins with the `InitializeExtraAccountMetaList` tag.
fn starts_with_init_list_tag(data: &[u8]) -> (r: bool)
    ensures
        r == has_init_list_tag(data@),
{
    if data.len() < 8 {
        return false;
    }
    let tag = vec![43u8, 34, 13, 49, 167, 88, 235, 235];
    assert(tag@ =~= init_list_tag());
    let mut i: usize = 0;
    while i < 8
        invariant
            i <= 8,
            data@.len() >= 8,
            tag@ == init_list_tag(),
            forall|j: int| 0 <= j < i ==> data@[j] == tag@[j],
        decreases 8 - i,
    {
        if data[i] != tag[i] {
            assert(data@.subrange(0, 8)[i as int] != init_list_tag()[i as int]);
            return false;
        }
        i = i + 1;
    }
    assert(data@.subrange(0, 8) =~= init_list_tag());
    true
}

/// Decodes `data` as an `Execute` command, if it is one.
fn decode_command(data: &[u8]) -> (r: Option<u64>)
    ensures
        r is Some <==> is_execute_payload(data@),
        r matches Some(a) ==> le_u64(a) == data@.subrange(8, 16),
{
    if starts_with_init_list_tag(data) {
        assert(init_list_tag()[0] != execute_tag()[0]);
        assert(!is_execute_tag(data@.subrange(0, 8)));
        None
    } else {
        unpack_execute(data)
    }
}

/// Whether `data` is an `Execute` payload: its tag, then at least eight bytes
/// of amount.
pub open spec fn is_execute_payload(data: Seq<u8>) -> bool {
    data.len() >= 16 && is_execute_tag(data.subrange(0, 8))
}

/// Relies on spl_transfer_hook_interface's TransferHookInstruction::unpack:
/// an `Execute` payload is its eight-byte tag followed by the amount in
/// little-endian order; any other payload is not `Execute`. A payload with the
/// `InitializeExtraAccountMetaList` tag is kept out: `unpack` reads its record
/// count unchecked and can panic on it.
#[verifier::external_body]
fn unpack_execute(data: &[u8]) -> (r: Option<u64>)
    requires
        !has_init_list_tag(data@),
    ensures
        r is Some <==> (data@.len() >= 16 && is_execute_tag(data@.subrange(0, 8))),
        r matches Some(a) ==> le_u64(a) == data@.subrange(8, 16),
{
    match TransferHookInstruction::unpack(data) {
        Ok(TransferHookInstruction::Execute { amount }) => Some(amount),
        Ok(_) => None,
        Err(_) => None,
    }
}

/// Decodes the runtime's callback payload into the amount of an `Execute`
/// command.
pub fn decode_execute(data: &[u8]) -> (r: Result<u64, HookError>)
    ensures
        r is Ok <==> is_execute_payload(data@),
        r matches Ok(a) ==> le_u64(a) == data@.subrange(8, 16),
        r is Err ==> r == Err::<u64, HookError>(HookError::InvalidInstructionData),
{
    match decode_command(data) {
        Some(amount) => Ok(amount),
        None => Err(HookError::InvalidInstructionData),
    }
}

/// Routes a decoded command: anything but an `Execute` amount is refused,
/// then the accounts are checked once, and only then is the fee planned. A
/// refusal plans no sub-call.
pub fn dispatch(
    ctx: &TransferHook,
    facts: &TransferFacts,
    program_id: &Key,
    decoded: Option<u64>,
) -> (r: Result<Vec<SubCall>, HookError>)
    ensures
        decoded is None ==> r == Err::<Vec<SubCall>, HookError>(HookError::InvalidInstructionData),
        decoded is Some && !transfer_accounts_valid(*ctx, *facts, *program_id) ==> r == Err::<
            Vec<SubCall>,
            HookError,
        >(HookError::AccountMismatch),
        decoded is Some && transfer_accounts_valid(*ctx, *facts, *program_id) ==> {
            &&& r is Err <==> !is_token_program(ctx.token_program_2022@)
            &&& r is Err ==> r == Err::<Vec<SubCall>, HookError>(HookError::IncorrectProgramId)
            &&& r matches Ok(calls) ==> planned_calls(*ctx, decoded.unwrap(), calls@)
        },
{
    match decoded {
        Some(amount) => {
            match check_transfer_accounts(ctx, facts, program_id) {
                Ok(()) => transfer_hook(ctx, amount),
                Err(e) => Err(e),
            }
        },
        None => Err(HookError::InvalidInstructionData),
    }
}

/// Entry point for the runtime's generic callback: decodes `data`, checks the
/// accounts, and for an `Execute` command plans the fee on its amount.
pub fn fallback(
    ctx: &TransferHook,
    facts: &TransferFacts,
    program_id: &Key,
    data: &[u8],
) -> (r: Result<Vec<SubCall>, HookError>)
    ensures
        !is_execute_payload(data@) ==> r == Err::<Vec<SubCall>, HookError>(
            HookError::InvalidInstructionData,
        ),
        is_execute_payload(data@) && !transfer_accounts_valid(*ctx, *facts, *program_id) ==> r
            == Err::<Vec<SubCall>, HookError>(HookError::AccountMismatch),
        is_execute_payload(data@) && transfer_accounts_valid(*ctx, *facts, *program_id) ==> {
            &&& r is Err <==> !is_token_program(ctx.token_program_2022@)
            &&& r is Err ==> r == Err::<Vec<SubCall>, HookError>(HookError::IncorrectProgramId)
            &&& r matches Ok(calls) ==> exists|a: u64|
                le_u64(a) == data@.subrange(8, 16) && planned_calls(*ctx, a, calls@)
        },
{
    let decoded = decode_command(data);
    dispatch(ctx, facts, program_id, decoded)
}

} // verus!
