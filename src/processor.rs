//! The handler, and what is known of the sequence of records that one
//! invocation writes.
use crate::reads::{read_accounts, AccountReads};
use crate::trace::{log_compute_units, log_marker, log_params, log_program_id, LogTrace, Record};
use solana_program::account_info::AccountInfo;
use solana_program::entrypoint::ProgramResult;
use solana_program::program_error::ProgramError;
use solana_program::pubkey::Pubkey;
use vstd::prelude::*;

verus! {

/// The records that one invocation writes, in the order in which it writes
/// them.
pub open spec fn log_plan<'a, 'info>(
    program_id: &'a Pubkey,
    accounts: &'a [AccountInfo<'info>],
    instruction_data: &'a [u8],
) -> Seq<Record<'a, 'info>> {
    seq![
        Record::Marker,
        Record::ProgramId(program_id),
        Record::ComputeUnits,
        Record::Params(accounts, instruction_data),
    ]
}

/// The records of `log_plan`, as values.
pub fn log_records<'a, 'info>(
    program_id: &'a Pubkey,
    accounts: &'a [AccountInfo<'info>],
    instruction_data: &'a [u8],
) -> (r: Vec<Record<'a, 'info>>)
    ensures
        r@ == log_plan(program_id, accounts, instruction_data),
{
    let r = vec![
        Record::Marker,
        Record::ProgramId(program_id),
        Record::ComputeUnits,
        Record::Params(accounts, instruction_data),
    ];
    assert(r@ =~= log_plan(program_id, accounts, instruction_data));
    r
}

/// What one invocation leaves behind, `before` and `after` being the trace
/// around it. Either it wrote all the records of `log_plan` and succeeded, or
/// an account was borrowed mutably already: then it wrote the first three,
/// and no dump, and failed with `AccountBorrowFailed`. With no accounts there
/// is nothing to borrow, and it succeeds.
pub open spec fn handled<'a, 'info>(
    program_id: &'a Pubkey,
    accounts: &'a [AccountInfo<'info>],
    instruction_data: &'a [u8],
    before: Seq<Record<'a, 'info>>,
    after: Seq<Record<'a, 'info>>,
    result: ProgramResult,
) -> bool {
    let plan = log_plan(program_id, accounts, instruction_data);
    &&& accounts@.len() == 0 ==> result == Ok::<(), ProgramError>(())
    &&& {
        ||| result == Ok::<(), ProgramError>(()) && after == before + plan
        ||| result == Err::<(), ProgramError>(ProgramError::AccountBorrowFailed) && after
            == before + plan.take(3)
    }
}

/// The last step of the handler, given what borrowing the accounts gave:
/// with the borrows it writes the dump of the accounts and the data and
/// succeeds; with an error it writes nothing and returns that error.
pub fn dump_params<'a, 'info>(
    accounts: &'a [AccountInfo<'info>],
    instruction_data: &'a [u8],
    reads: Result<AccountReads<'a, 'info>, ProgramError>,
    trace: &mut LogTrace<'a, 'info>,
) -> (r: ProgramResult)
    requires
        reads matches Ok(held) ==> held.covers(accounts@),
    ensures
        reads is Ok ==> r == Ok::<(), ProgramError>(()) && final(trace)@ == old(trace)@.push(
            Record::Params(accounts, instruction_data),
        ),
        reads matches Err(e) ==> r == Err::<(), ProgramError>(e) && final(trace)@ == old(trace)@,
{
    match reads {
        Ok(held) => {
            log_params(accounts, instruction_data, &held, trace);
            Ok(())
        },
        Err(e) => Err(e),
    }
}

/// The entry point: it writes to the runtime's log, in this order, the text
/// `MARKER`, the program's address, the compute units left, and the accounts
/// with the instruction data, and succeeds. The accounts and the data are only
/// borrowed for reading. Where the caller holds a mutable borrow of an
/// account's lamports or data, the dump could not read them: the handler then
/// stops after the third record with `AccountBorrowFailed`. With an empty
/// account list it always succeeds.
pub fn process_instruction<'a, 'info>(
    program_id: &'a Pubkey,
    accounts: &'a [AccountInfo<'info>],
    instruction_data: &'a [u8],
    trace: &mut LogTrace<'a, 'info>,
) -> (r: ProgramResult)
    ensures
        handled(program_id, accounts, instruction_data, old(trace)@, final(trace)@, r),
{
    log_marker(trace);
    log_program_id(program_id, trace);
    log_compute_units(trace);
    let reads = read_accounts(accounts);
    let r = dump_params(accounts, instruction_data, reads, trace);
    let ghost plan = log_plan(program_id, accounts, instruction_data);
    assert(plan.take(3) =~= seq![plan[0], plan[1], plan[2]]);
    assert(trace@ =~= old(trace)@ + plan || trace@ =~= old(trace)@ + plan.take(3));
    r
}

} // verus!
