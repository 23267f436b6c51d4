//! Shared borrows of the accounts' lamports and data, taken before the
//! parameter dump: while they are held, no account can be borrowed mutably,
//! so the dump's own reads cannot fail.
use core::cell::Ref;
use solana_program::account_info::AccountInfo;
use solana_program::program_error::ProgramError;
use vstd::prelude::*;

verus! {

/// A shared borrow of one account's lamports.
pub struct LamportsRead<'b, 'info> {
    account: &'b AccountInfo<'info>,
    guard: Ref<'b, &'b mut u64>,
}

/// A shared borrow of one account's data.
pub struct DataRead<'b, 'info> {
    account: &'b AccountInfo<'info>,
    guard: Ref<'b, &'b mut [u8]>,
}

impl<'b, 'info> LamportsRead<'b, 'info> {
    /// The account whose lamports are borrowed.
    pub closed spec fn account(&self) -> AccountInfo<'info> {
        *self.account
    }
}

impl<'b, 'info> DataRead<'b, 'info> {
    /// The account whose data is borrowed.
    pub closed spec fn account(&self) -> AccountInfo<'info> {
        *self.account
    }
}

/// Relies on `AccountInfo::try_borrow_lamports`: `Ok` holds a shared borrow of
/// this account's lamports; the only error is `AccountBorrowFailed`.
#[verifier::external_body]
fn borrow_lamports<'b, 'info>(account: &'b AccountInfo<'info>) -> (r: Result<
    LamportsRead<'b, 'info>,
    ProgramError,
>)
    ensures
        r matches Ok(read) ==> read.account() == *account,
        r matches Err(e) ==> e == ProgramError::AccountBorrowFailed,
{
    match account.try_borrow_lamports() {
        Ok(guard) => Ok(LamportsRead { account, guard }),
        Err(e) => Err(e),
    }
}

/// Relies on `AccountInfo::try_borrow_data`: `Ok` holds a shared borrow of
/// this account's data; the only error is `AccountBorrowFailed`.
#[verifier::external_body]
fn borrow_data<'b, 'info>(account: &'b AccountInfo<'info>) -> (r: Result<
    DataRead<'b, 'info>,
    ProgramError,
>)
    ensures
        r matches Ok(read) ==> read.account() == *account,
        r matches Err(e) ==> e == ProgramError::AccountBorrowFailed,
{
    match account.try_borrow_data() {
        Ok(guard) => Ok(DataRead { account, guard }),
        Err(e) => Err(e),
    }
}

/// Shared borrows of the lamports and the data of every account of a list.
pub struct AccountReads<'b, 'info> {
    lamports: Vec<LamportsRead<'b, 'info>>,
    data: Vec<DataRead<'b, 'info>>,
}

impl<'b, 'info> AccountReads<'b, 'info> {
    /// The borrows cover `accounts`: one of the lamports and one of the data
    /// of each account, in list order.
    pub closed spec fn covers(&self, accounts: Seq<AccountInfo<'info>>) -> bool {
        &&& self.lamports@.len() == accounts.len()
        &&& self.data@.len() == accounts.len()
        &&& forall|i: int|
            0 <= i < accounts.len() ==> #[trigger] self.lamports@[i].account() == accounts[i]
                && self.data@[i].account() == accounts[i]
    }
}

/// Borrows the lamports and the data of every account for reading. It fails
/// with `AccountBorrowFailed` where one of them is borrowed mutably already;
/// an empty list takes no borrow and always succeeds.
pub fn read_accounts<'b, 'info>(accounts: &'b [AccountInfo<'info>]) -> (r: Result<
    AccountReads<'b, 'info>,
    ProgramError,
>)
    ensures
        r matches Ok(reads) ==> reads.covers(accounts@),
        r matches Err(e) ==> e == ProgramError::AccountBorrowFailed,
        accounts@.len() == 0 ==> r is Ok,
{
    let mut reads = AccountReads { lamports: Vec::new(), data: Vec::new() };
    let mut i: usize = 0;
    while i < accounts.len()
        invariant
            i <= accounts@.len(),
            reads.lamports@.len() == i,
            reads.data@.len() == i,
            forall|j: int|
                0 <= j < i ==> #[trigger] reads.lamports@[j].account() == accounts@[j]
                    && reads.data@[j].account() == accounts@[j],
        decreases accounts@.len() - i,
    {
        let lamports = match borrow_lamports(&accounts[i]) {
            Ok(read) => read,
            Err(e) => return Err(e),
        };
        let data = match borrow_data(&accounts[i]) {
            Ok(read) => read,
            Err(e) => return Err(e),
        };
        reads.lamports.push(lamports);
        reads.data.push(data);
        i = i + 1;
    }
    Ok(reads)
}

} // verus!
