use stakingfrontend::account::Stakingfrontend;
use stakingfrontend::error::CounterError;
use stakingfrontend::ledger::{Ledger, ALLOCATION_COST};

#[test]
fn initialize_reads_zero() {
    let mut ledger = Ledger::new(100);
    assert_eq!(ledger.initialize(), Ok(()));
    assert_eq!(ledger.count(), Ok(0));
}

#[test]
fn initialize_charges_the_payer() {
    let mut ledger = Ledger::new(100);
    assert_eq!(ledger.initialize(), Ok(()));
    assert_eq!(ledger.payer_balance(), 100 - ALLOCATION_COST);
}

#[test]
fn initialize_duplicate_fails_unchanged() {
    let mut ledger = Ledger::new(100);
    assert_eq!(ledger.initialize(), Ok(()));
    assert_eq!(ledger.set(7), Ok(()));
    assert_eq!(ledger.initialize(), Err(CounterError::AllocationError));
    assert_eq!(ledger.count(), Ok(7));
    assert_eq!(ledger.payer_balance(), 100 - ALLOCATION_COST);
}

#[test]
fn initialize_insufficient_funds_fails_unchanged() {
    let mut ledger = Ledger::new(ALLOCATION_COST - 1);
    assert_eq!(ledger.initialize(), Err(CounterError::AllocationError));
    assert_eq!(ledger.count(), Err(CounterError::AccountNotFound));
    assert_eq!(ledger.payer_balance(), ALLOCATION_COST - 1);
}

#[test]
fn increment_then_decrement_restores_count() {
    let mut ledger = Ledger::new(100);
    assert_eq!(ledger.initialize(), Ok(()));
    assert_eq!(ledger.set(41), Ok(()));
    assert_eq!(ledger.increment(), Ok(()));
    assert_eq!(ledger.count(), Ok(42));
    assert_eq!(ledger.decrement(), Ok(()));
    assert_eq!(ledger.count(), Ok(41));
}

#[test]
fn increment_overflow_at_max_state_unchanged() {
    let mut ledger = Ledger::new(100);
    assert_eq!(ledger.initialize(), Ok(()));
    assert_eq!(ledger.set(255), Ok(()));
    assert_eq!(ledger.increment(), Err(CounterError::ArithmeticOverflow));
    assert_eq!(ledger.count(), Ok(255));
    assert_eq!(ledger.payer_balance(), 100 - ALLOCATION_COST);
}

#[test]
fn decrement_underflow_at_zero_state_unchanged() {
    let mut ledger = Ledger::new(100);
    assert_eq!(ledger.initialize(), Ok(()));
    assert_eq!(ledger.count(), Ok(0));
    assert_eq!(ledger.decrement(), Err(CounterError::ArithmeticUnderflow));
    assert_eq!(ledger.count(), Ok(0));
    assert_eq!(ledger.payer_balance(), 100 - ALLOCATION_COST);
}

#[test]
fn set_then_read_yields_value_for_every_count() {
    let mut ledger = Ledger::new(100);
    assert_eq!(ledger.initialize(), Ok(()));
    for value in 0..=255u8 {
        assert_eq!(ledger.set(value), Ok(()));
        assert_eq!(ledger.count(), Ok(value));
    }
}

#[test]
fn operations_before_initialize_fail_not_found() {
    let mut ledger = Ledger::new(100);
    assert_eq!(ledger.increment(), Err(CounterError::AccountNotFound));
    assert_eq!(ledger.decrement(), Err(CounterError::AccountNotFound));
    assert_eq!(ledger.set(3), Err(CounterError::AccountNotFound));
    assert_eq!(ledger.close(), Err(CounterError::AccountNotFound));
    assert_eq!(ledger.count(), Err(CounterError::AccountNotFound));
}

#[test]
fn close_then_every_operation_fails_not_found() {
    let mut ledger = Ledger::new(100);
    assert_eq!(ledger.initialize(), Ok(()));
    assert_eq!(ledger.set(9), Ok(()));
    assert_eq!(ledger.close(), Ok(()));
    assert_eq!(ledger.increment(), Err(CounterError::AccountNotFound));
    assert_eq!(ledger.decrement(), Err(CounterError::AccountNotFound));
    assert_eq!(ledger.set(1), Err(CounterError::AccountNotFound));
    assert_eq!(ledger.count(), Err(CounterError::AccountNotFound));
    assert_eq!(ledger.close(), Err(CounterError::AccountNotFound));
}

#[test]
fn close_refunds_the_payer_in_full() {
    let mut ledger = Ledger::new(100);
    assert_eq!(ledger.initialize(), Ok(()));
    assert_eq!(ledger.payer_balance(), 100 - ALLOCATION_COST);
    assert_eq!(ledger.close(), Ok(()));
    assert_eq!(ledger.payer_balance(), 100);
}

#[test]
fn account_can_be_reallocated_after_close() {
    let mut ledger = Ledger::new(100);
    assert_eq!(ledger.initialize(), Ok(()));
    assert_eq!(ledger.set(200), Ok(()));
    assert_eq!(ledger.close(), Ok(()));
    assert_eq!(ledger.initialize(), Ok(()));
    assert_eq!(ledger.count(), Ok(0));
}

#[test]
fn record_bytes_have_header_then_count() {
    let record = Stakingfrontend { count: 42 };
    let bytes = record.to_record_bytes();
    assert_eq!(bytes, vec![0x63, 0x6f, 0x75, 0x6e, 0x74, 0x65, 0x72, 0x31, 42]);
}

#[test]
fn record_round_trips_through_bytes() {
    for count in 0..=255u8 {
        let record = Stakingfrontend { count };
        let bytes = record.to_record_bytes();
        assert_eq!(Stakingfrontend::from_record_bytes(&bytes), Some(record));
    }
}

#[test]
fn record_with_wrong_header_does_not_decode() {
    let mut bytes = Stakingfrontend { count: 5 }.to_record_bytes();
    bytes[0] = 0x64;
    assert_eq!(Stakingfrontend::from_record_bytes(&bytes), None);
}

#[test]
fn record_with_wrong_length_does_not_decode() {
    let mut bytes = Stakingfrontend { count: 5 }.to_record_bytes();
    bytes.push(0);
    assert_eq!(Stakingfrontend::from_record_bytes(&bytes), None);
    assert_eq!(Stakingfrontend::from_record_bytes(&Vec::new()), None);
}
