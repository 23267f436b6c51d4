//! The records that the handler writes to the runtime's log, and the trace
//! that lists them. Only the wrappers of this module extend a trace, each with
//! the one record that its log call writes.
use crate::reads::AccountReads;
use solana_program::account_info::AccountInfo;
use solana_program::pubkey::Pubkey;
use vstd::prelude::*;

verus! {

/// The fixed text of the first record: it shows that the handler was reached.
pub const MARKER: &'static str = "log static string";

/// One record written to the runtime's log. Each variant borrows what it
/// reports, so a record holds the very values that were passed in.
#[derive(Clone, Copy)]
pub enum Record<'a, 'info> {
    /// The fixed text `MARKER`.
    Marker,
    /// The address of the executing program.
    ProgramId(&'a Pubkey),
    /// The compute units left to the call; the runtime fills in the number.
    ComputeUnits,
    /// The account list and the instruction data, whole and in order.
    Params(&'a [AccountInfo<'info>], &'a [u8]),
}

/// The records written so far, in order. It holds no data at run time: its
/// contents are ghost.
pub struct LogTrace<'a, 'info> {
    records: Ghost<Seq<Record<'a, 'info>>>,
}

impl<'a, 'info> View for LogTrace<'a, 'info> {
    type V = Seq<Record<'a, 'info>>;

    closed spec fn view(&self) -> Seq<Record<'a, 'info>> {
        self.records@
    }
}

impl<'a, 'info> LogTrace<'a, 'info> {
    /// A trace with no records.
    pub fn new() -> (r: Self)
        ensures
            r@ == Seq::<Record<'a, 'info>>::empty(),
    {
        LogTrace { records: Ghost(Seq::empty()) }
    }
}

/// Relies on `solana_msg::sol_log` (re-exported as `solana_program::log::sol_log`):
/// it writes `MARKER` to the runtime's log.
#[verifier::external_body]
pub(crate) fn log_marker<'a, 'info>(trace: &mut LogTrace<'a, 'info>)
    ensures
        final(trace)@ == old(trace)@.push(Record::Marker),
{
    solana_program::log::sol_log(MARKER)
}

/// Relies on `Address::log` (`Pubkey::log`): it writes the program's address to
/// the runtime's log.
#[verifier::external_body]
pub(crate) fn log_program_id<'a, 'info>(program_id: &'a Pubkey, trace: &mut LogTrace<'a, 'info>)
    ensures
        final(trace)@ == old(trace)@.push(Record::ProgramId(program_id)),
{
    program_id.log()
}

/// Relies on `solana_program::log::sol_log_compute_units`: it writes the
/// compute units left to the call to the runtime's log.
#[verifier::external_body]
pub(crate) fn log_compute_units<'a, 'info>(trace: &mut LogTrace<'a, 'info>)
    ensures
        final(trace)@ == old(trace)@.push(Record::ComputeUnits),
{
    solana_program::log::sol_log_compute_units()
}

/// Relies on `solana_program::log::sol_log_params`: it writes every account
/// and every byte of the instruction data to the runtime's log. It reads each
/// account's lamports and data through shared `RefCell` borrows, which fail
/// only where a mutable borrow is live; `reads` holds shared borrows of all of
/// them for the whole call, so none is.
#[verifier::external_body]
#[allow(unused_variables)]
pub(crate) fn log_params<'a, 'info>(
    accounts: &'a [AccountInfo<'info>],
    instruction_data: &'a [u8],
    reads: &AccountReads<'a, 'info>,
    trace: &mut LogTrace<'a, 'info>,
)
    requires
        reads.covers(accounts@),
    ensures
        final(trace)@ == old(trace)@.push(Record::Params(accounts, instruction_data)),
{
    solana_program::log::sol_log_params(accounts, instruction_data)
}

} // verus!
