//! What holds of every invocation of the handler, proved from the contract of
//! `process_instruction` (the relation `handled`).
use crate::processor::{handled, log_plan};
use crate::trace::Record;
use solana_program::account_info::AccountInfo;
use solana_program::entrypoint::ProgramResult;
use solana_program::program_error::ProgramError;
use solana_program::pubkey::Pubkey;
use vstd::prelude::*;

verus! {

/// An invocation appends to the log, after what was there, the marker, the
/// program's address and the compute units, in this order; when it succeeds
/// it appends exactly one record more, the accounts with the instruction data,
/// so four in all, once each. With no accounts it always succeeds.
pub proof fn lemma_four_records_in_order<'a, 'info>(
    program_id: &'a Pubkey,
    accounts: &'a [AccountInfo<'info>],
    instruction_data: &'a [u8],
    before: Seq<Record<'a, 'info>>,
    after: Seq<Record<'a, 'info>>,
    result: ProgramResult,
)
    requires
        handled(program_id, accounts, instruction_data, before, after, result),
    ensures
        after.len() >= before.len() + 3,
        after.take(before.len() as int) == before,
        after[before.len() as int] is Marker,
        after[before.len() + 1 as int] == Record::ProgramId(program_id),
        after[before.len() + 2 as int] is ComputeUnits,
        result is Ok ==> after.len() == before.len() + 4 && after[before.len() + 3 as int] is Params,
        accounts@.len() == 0 ==> result is Ok && after.len() == before.len() + 4,
{
    assert(after.take(before.len() as int) =~= before);
}

/// An invocation succeeds, and writes the dump, unless an account could not be
/// borrowed for reading; no other error ever comes back, and with no accounts
/// it always succeeds.
pub proof fn lemma_succeeds_or_borrow_failed<'a, 'info>(
    program_id: &'a Pubkey,
    accounts: &'a [AccountInfo<'info>],
    instruction_data: &'a [u8],
    before: Seq<Record<'a, 'info>>,
    after: Seq<Record<'a, 'info>>,
    result: ProgramResult,
)
    requires
        handled(program_id, accounts, instruction_data, before, after, result),
    ensures
        result == Ok::<(), ProgramError>(()) || result == Err::<(), ProgramError>(
            ProgramError::AccountBorrowFailed,
        ),
        result is Ok <==> after.len() == before.len() + 4,
        accounts@.len() == 0 ==> result == Ok::<(), ProgramError>(()),
{
}

/// The dump written by a successful invocation, which every invocation with no
/// accounts is, holds the account list and the instruction data that were
/// passed in, whole and unchanged, empty ones included.
pub proof fn lemma_params_echoed<'a, 'info>(
    program_id: &'a Pubkey,
    accounts: &'a [AccountInfo<'info>],
    instruction_data: &'a [u8],
    before: Seq<Record<'a, 'info>>,
    after: Seq<Record<'a, 'info>>,
    result: ProgramResult,
)
    requires
        handled(program_id, accounts, instruction_data, before, after, result),
        result is Ok || accounts@.len() == 0,
    ensures
        result is Ok,
        after[before.len() + 3 as int] matches Record::Params(a, d) && a@ == accounts@ && d@
            == instruction_data@,
{
}

/// Two invocations with the same inputs that both succeed write the same
/// records, whatever either trace held before; with no accounts both always
/// succeed.
pub proof fn lemma_same_inputs_same_records<'a, 'info>(
    program_id: &'a Pubkey,
    accounts: &'a [AccountInfo<'info>],
    instruction_data: &'a [u8],
    before1: Seq<Record<'a, 'info>>,
    after1: Seq<Record<'a, 'info>>,
    result1: ProgramResult,
    before2: Seq<Record<'a, 'info>>,
    after2: Seq<Record<'a, 'info>>,
    result2: ProgramResult,
)
    requires
        handled(program_id, accounts, instruction_data, before1, after1, result1),
        handled(program_id, accounts, instruction_data, before2, after2, result2),
        accounts@.len() == 0 || (result1 is Ok && result2 is Ok),
    ensures
        result1 is Ok && result2 is Ok,
        after1.skip(before1.len() as int) == after2.skip(before2.len() as int),
        after1.skip(before1.len() as int) == log_plan(program_id, accounts, instruction_data),
        result1 == result2,
{
    assert(after1.skip(before1.len() as int) =~= log_plan(program_id, accounts, instruction_data));
    assert(after2.skip(before2.len() as int) =~= log_plan(program_id, accounts, instruction_data));
}

/// The first three records depend on the program's address alone: two
/// invocations for the same program write the same three, whatever accounts
/// and data each is handed and however each ends.
pub proof fn lemma_head_ignores_params<'a, 'info>(
    program_id: &'a Pubkey,
    accounts1: &'a [AccountInfo<'info>],
    instruction_data1: &'a [u8],
    before1: Seq<Record<'a, 'info>>,
    after1: Seq<Record<'a, 'info>>,
    result1: ProgramResult,
    accounts2: &'a [AccountInfo<'info>],
    instruction_data2: &'a [u8],
    before2: Seq<Record<'a, 'info>>,
    after2: Seq<Record<'a, 'info>>,
    result2: ProgramResult,
)
    requires
        handled(program_id, accounts1, instruction_data1, before1, after1, result1),
        handled(program_id, accounts2, instruction_data2, before2, after2, result2),
    ensures
        after1.subrange(before1.len() as int, before1.len() + 3 as int) == after2.subrange(
            before2.len() as int,
            before2.len() + 3 as int,
        ),
        after1.subrange(before1.len() as int, before1.len() + 3 as int) == seq![
            Record::Marker,
            Record::ProgramId(program_id),
            Record::ComputeUnits,
        ],
{
    let head = seq![Record::Marker, Record::ProgramId(program_id), Record::ComputeUnits];
    assert(after1.subrange(before1.len() as int, before1.len() + 3 as int) =~= head);
    assert(after2.subrange(before2.len() as int, before2.len() + 3 as int) =~= head);
}

} // verus!
