use hello_console::processor::{dump_params, log_records, process_instruction};
use hello_console::reads::read_accounts;
use hello_console::trace::{LogTrace, Record, MARKER};
use solana_program::account_info::AccountInfo;
use solana_program::program_error::ProgramError;
use solana_program::pubkey::Pubkey;

fn sample_key(seed: u8) -> Pubkey {
    let mut bytes = [0u8; 32];
    for (i, b) in bytes.iter_mut().enumerate() {
        *b = seed.wrapping_add(i as u8);
    }
    Pubkey::new_from_array(bytes)
}

#[test]
fn zero_identity_no_accounts_no_data() {
    let program_id = Pubkey::new_from_array([0u8; 32]);
    let accounts: Vec<AccountInfo> = Vec::new();
    let data: Vec<u8> = Vec::new();
    assert_eq!(process_instruction(&program_id, &accounts, &data, &mut LogTrace::new()), Ok(()));
    let records = log_records(&program_id, &accounts, &data);
    assert_eq!(records.len(), 4);
    assert!(matches!(records[3], Record::Params(a, d) if a.is_empty() && d.is_empty()));
}

#[test]
fn one_account_four_bytes() {
    let program_id = sample_key(7);
    let key = sample_key(40);
    let owner = sample_key(90);
    let mut lamports: u64 = 1_000;
    let mut account_data = [9u8; 16];
    let account = AccountInfo::new(
        &key,
        true,
        false,
        &mut lamports,
        &mut account_data,
        &owner,
        false,
    );
    let accounts = vec![account];
    let data = [0x01u8, 0x02, 0x03, 0x04];
    assert_eq!(process_instruction(&program_id, &accounts, &data, &mut LogTrace::new()), Ok(()));
    let records = log_records(&program_id, &accounts, &data);
    match records[3] {
        Record::Params(a, d) => {
            assert_eq!(a.len(), 1);
            assert_eq!(*a[0].key, key);
            assert_eq!(*a[0].owner, owner);
            assert_eq!(d, &[0x01u8, 0x02, 0x03, 0x04][..]);
        }
        _ => panic!("the last record is not the parameter dump"),
    }
}

#[test]
fn large_payload_is_echoed_whole() {
    let program_id = sample_key(3);
    let data: Vec<u8> = (0..10_000u32).map(|i| (i % 251) as u8).collect();
    assert_eq!(process_instruction(&program_id, &[], &data, &mut LogTrace::new()), Ok(()));
    let records = log_records(&program_id, &[], &data);
    match records[3] {
        Record::Params(a, d) => {
            assert!(a.is_empty());
            assert_eq!(d.len(), 10_000);
            assert_eq!(d, &data[..]);
        }
        _ => panic!("the last record is not the parameter dump"),
    }
}

#[test]
fn records_come_in_fixed_order() {
    let program_id = sample_key(11);
    let data = [5u8, 6];
    let records = log_records(&program_id, &[], &data);
    assert_eq!(records.len(), 4);
    assert!(matches!(records[0], Record::Marker));
    assert!(matches!(records[1], Record::ProgramId(p) if std::ptr::eq(p, &program_id)));
    assert!(matches!(records[2], Record::ComputeUnits));
    assert!(matches!(records[3], Record::Params(_, d) if std::ptr::eq(d, &data[..])));
}

#[test]
fn marker_is_fixed_text() {
    assert_eq!(MARKER, "log static string");
}

#[test]
fn inputs_are_unchanged_by_a_call() {
    let program_id = sample_key(21);
    let key = sample_key(22);
    let owner = sample_key(23);
    let mut lamports: u64 = 42;
    let mut account_data = [1u8, 2, 3];
    let account = AccountInfo::new(
        &key,
        false,
        true,
        &mut lamports,
        &mut account_data,
        &owner,
        false,
    );
    let accounts = vec![account];
    let data = vec![0xaau8, 0xbb, 0xcc];
    let data_before = data.clone();
    assert_eq!(process_instruction(&program_id, &accounts, &data, &mut LogTrace::new()), Ok(()));
    assert_eq!(data, data_before);
    assert_eq!(accounts[0].lamports(), 42);
    assert_eq!(&accounts[0].data.borrow()[..], &[1u8, 2, 3][..]);
    assert_eq!(*accounts[0].key, key);
    assert!(!accounts[0].is_signer);
    assert!(accounts[0].is_writable);
}

#[test]
fn repeated_calls_give_same_records_and_result() {
    let program_id = sample_key(31);
    let data = [7u8, 8, 9];
    let mut trace = LogTrace::new();
    let first = process_instruction(&program_id, &[], &data, &mut trace);
    let second = process_instruction(&program_id, &[], &data, &mut trace);
    assert_eq!(first, Ok(()));
    assert_eq!(first, second);
    let once = log_records(&program_id, &[], &data);
    let again = log_records(&program_id, &[], &data);
    assert_eq!(once.len(), again.len());
    for (x, y) in once.iter().zip(again.iter()) {
        let same = match (x, y) {
            (Record::Marker, Record::Marker) => true,
            (Record::ProgramId(p), Record::ProgramId(q)) => p == q,
            (Record::ComputeUnits, Record::ComputeUnits) => true,
            (Record::Params(a, d), Record::Params(b, e)) => a.len() == b.len() && d == e,
            _ => false,
        };
        assert!(same);
    }
}

#[test]
fn mutably_borrowed_account_fails_the_dump() {
    let program_id = sample_key(51);
    let key = sample_key(52);
    let owner = sample_key(53);
    let mut lamports: u64 = 5;
    let mut account_data = [4u8; 8];
    let account = AccountInfo::new(
        &key,
        false,
        true,
        &mut lamports,
        &mut account_data,
        &owner,
        false,
    );
    let accounts = vec![account];
    let held = accounts[0].try_borrow_mut_data().unwrap();
    let r = process_instruction(&program_id, &accounts, &[1u8], &mut LogTrace::new());
    assert_eq!(r, Err(ProgramError::AccountBorrowFailed));
    assert!(read_accounts(&accounts).is_err());
    drop(held);
    assert!(read_accounts(&accounts).is_ok());
    assert_eq!(
        process_instruction(&program_id, &accounts, &[1u8], &mut LogTrace::new()),
        Ok(())
    );
}

#[test]
fn dump_params_follows_the_borrow_outcome() {
    let key = sample_key(61);
    let owner = sample_key(62);
    let mut lamports: u64 = 8;
    let mut account_data = [0u8; 2];
    let account = AccountInfo::new(
        &key,
        true,
        true,
        &mut lamports,
        &mut account_data,
        &owner,
        false,
    );
    let accounts = vec![account];
    let data = [3u8, 1, 4];
    let mut trace = LogTrace::new();
    let reads = read_accounts(&accounts);
    assert_eq!(dump_params(&accounts, &data, reads, &mut trace), Ok(()));
    let failed = dump_params(&accounts, &data, Err(ProgramError::InvalidArgument), &mut trace);
    assert_eq!(failed, Err(ProgramError::InvalidArgument));
    let lamports_held = accounts[0].try_borrow_mut_lamports().unwrap();
    let reads = read_accounts(&accounts);
    assert!(matches!(reads, Err(ProgramError::AccountBorrowFailed)));
    drop(reads);
    drop(lamports_held);
}
