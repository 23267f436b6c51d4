//! The types of the Solana runtime interface that the handler works with: the
//! account and address types, carried through unread, the error type, and the
//! read guard that keeps an account from being borrowed mutably.
use solana_program::account_info::AccountInfo;
use solana_program::program_error::ProgramError;
use solana_program::pubkey::Pubkey;
use vstd::prelude::*;

verus! {

/// An account as the runtime hands it to the program; carried through unread.
#[verifier::external_type_specification]
#[verifier::external_body]
pub struct ExAccountInfo<'a>(AccountInfo<'a>);

/// The address of a program or account; carried through unread.
#[verifier::external_type_specification]
#[verifier::external_body]
pub struct ExPubkey(Pubkey);

/// The error half of the runtime's result type; its variants are visible, so
/// contracts can say which error comes back.
#[verifier::external_type_specification]
pub struct ExProgramError(ProgramError);

/// A shared borrow of a `RefCell`'s contents; while it lives, the cell cannot
/// be borrowed mutably. Held, never read.
#[verifier::external_type_specification]
#[verifier::external_body]
#[verifier::reject_recursive_types(T)]
pub struct ExRef<'b, T: ?Sized>(core::cell::Ref<'b, T>);

} // verus!
