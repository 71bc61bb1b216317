use soar::{resize_account, top_up_amount, Funder, GrowthError, Ledger, Record};

const MAX_INCREASE: usize = 10 * 1024;
const MAX_SIZE: usize = 10 * 1024 * 1024;

fn ledger() -> Ledger {
    Ledger::new(128, 5, MAX_INCREASE, MAX_SIZE)
}

fn patterned(size: usize) -> Vec<u8> {
    (0..size).map(|i| (i % 251) as u8).collect()
}

#[test]
fn minimum_balance_follows_rate() {
    let l = ledger();
    assert_eq!(l.minimum_balance(100), Some(1140));
    assert_eq!(l.minimum_balance(200), Some(1640));
    assert_eq!(l.minimum_balance(0), Some(640));
}

#[test]
fn minimum_balance_unavailable_or_too_large() {
    let no_rent = Ledger { rent: None, max_increase: MAX_INCREASE, max_size: MAX_SIZE };
    assert_eq!(no_rent.minimum_balance(10), None);
    let steep = Ledger::new(u64::MAX, 2, MAX_INCREASE, MAX_SIZE);
    assert_eq!(steep.minimum_balance(0), None);
    let free = Ledger::new(u64::MAX, 0, MAX_INCREASE, MAX_SIZE);
    assert_eq!(free.minimum_balance(usize::MAX), Some(0));
}

#[test]
fn top_up_amount_saturates() {
    assert_eq!(top_up_amount(1640, 1140), 500);
    assert_eq!(top_up_amount(1140, 1640), 0);
    assert_eq!(top_up_amount(7, 7), 0);
    assert_eq!(top_up_amount(u64::MAX, 0), u64::MAX);
}

#[test]
fn grow_transfers_exact_shortfall() {
    let l = ledger();
    let before = patterned(100);
    let mut record = Record::new(1140, before.clone());
    let mut funder = Funder::new(10_000, true);
    assert_eq!(resize_account(&l, &mut record, &mut funder, 200), Ok(()));
    assert_eq!(funder.balance(), 9_500);
    assert_eq!(record.size(), 200);
    assert_eq!(record.balance(), l.minimum_balance(200).unwrap());
    assert_eq!(record.balance(), 1640);
    assert_eq!(&record.data()[..100], &before[..]);
}

#[test]
fn shrink_keeps_excess_balance() {
    let l = ledger();
    let before = patterned(100);
    let mut record = Record::new(1140, before.clone());
    let mut funder = Funder::new(10_000, true);
    assert_eq!(resize_account(&l, &mut record, &mut funder, 200), Ok(()));
    assert_eq!(resize_account(&l, &mut record, &mut funder, 50), Ok(()));
    assert_eq!(funder.balance(), 9_500);
    assert_eq!(record.size(), 50);
    assert_eq!(record.balance(), 1640);
    assert_eq!(record.data(), &before[..50]);
}

#[test]
fn insufficient_funder_changes_nothing() {
    let l = ledger();
    let before = patterned(100);
    let mut record = Record::new(1140, before.clone());
    let mut funder = Funder::new(499, true);
    assert_eq!(resize_account(&l, &mut record, &mut funder, 200), Err(GrowthError::TransferRejected));
    assert_eq!(record.size(), 100);
    assert_eq!(record.balance(), 1140);
    assert_eq!(record.data(), &before[..]);
    assert_eq!(funder.balance(), 499);
}

#[test]
fn unauthorized_funder_is_rejected_only_when_paying() {
    let l = ledger();
    let mut record = Record::new(1140, patterned(100));
    let mut funder = Funder::new(10_000, false);
    assert_eq!(resize_account(&l, &mut record, &mut funder, 101), Err(GrowthError::TransferRejected));
    assert_eq!(record.balance(), 1140);
    assert_eq!(resize_account(&l, &mut record, &mut funder, 60), Ok(()));
    assert_eq!(record.size(), 60);
    assert_eq!(funder.balance(), 10_000);
}

#[test]
fn funded_record_grows_without_transfer() {
    let l = ledger();
    let mut record = Record::new(5_000, patterned(100));
    let mut funder = Funder::new(0, false);
    assert_eq!(resize_account(&l, &mut record, &mut funder, 300), Ok(()));
    assert_eq!(record.size(), 300);
    assert_eq!(record.balance(), 5_000);
    assert_eq!(funder.balance(), 0);
}

#[test]
fn oracle_unavailable_changes_nothing() {
    let l = Ledger { rent: None, max_increase: MAX_INCREASE, max_size: MAX_SIZE };
    let mut record = Record::new(1140, patterned(100));
    let mut funder = Funder::new(10_000, true);
    assert_eq!(
        resize_account(&l, &mut record, &mut funder, 200),
        Err(GrowthError::BalanceOracleUnavailable)
    );
    assert_eq!(record.size(), 100);
    assert_eq!(funder.balance(), 10_000);
}

#[test]
fn growth_beyond_ceilings_is_rejected() {
    let l = Ledger::new(128, 1, 64, 256);
    let mut record = Record::new(0, patterned(100));
    let mut funder = Funder::new(10_000, true);
    assert_eq!(resize_account(&l, &mut record, &mut funder, 165), Err(GrowthError::ResizeRejected));
    assert_eq!(record.size(), 100);
    assert_eq!(record.balance(), 0);
    assert_eq!(funder.balance(), 10_000);
    assert_eq!(resize_account(&l, &mut record, &mut funder, 164), Ok(()));
    assert_eq!(record.balance(), 292);
    assert_eq!(resize_account(&l, &mut record, &mut funder, 228), Ok(()));
    assert_eq!(resize_account(&l, &mut record, &mut funder, 257), Err(GrowthError::ResizeRejected));
    assert_eq!(resize_account(&l, &mut record, &mut funder, 256), Ok(()));
    assert_eq!(record.size(), 256);
}

#[test]
fn newly_exposed_bytes_are_writable() {
    let l = ledger();
    let before = patterned(4);
    let mut record = Record::new(0, before.clone());
    let mut funder = Funder::new(10_000, true);
    assert_eq!(resize_account(&l, &mut record, &mut funder, 8), Ok(()));
    assert_eq!(record.size(), 8);
    assert_eq!(&record.data()[..4], &before[..]);
    assert!(record.write_bytes(4, &[9, 8, 7, 6]));
    assert_eq!(record.data(), &[0, 1, 2, 3, 9, 8, 7, 6]);
}

#[test]
fn write_bytes_refuses_overflowing_range() {
    let mut record = Record::new(3, vec![1, 2, 3]);
    assert!(!record.write_bytes(2, &[5, 5]));
    assert!(!record.write_bytes(4, &[]));
    assert_eq!(record.data(), &[1, 2, 3]);
    assert!(record.write_bytes(1, &[5, 6]));
    assert_eq!(record.data(), &[1, 5, 6]);
    assert!(record.write_bytes(3, &[]));
    assert_eq!(record.balance(), 3);
}
