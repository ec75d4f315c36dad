//! Tests for the schedule calculator and the fee policy.

use faktor::fees::{total_fee_reserve, TRANSFER_FEE_DISTRIBUTOR, TRANSFER_FEE_PROGRAM};
use faktor::schedule::{num_installments, validate_chronology};

#[test]
fn one_shot_chronology_requires_equal_timestamps() {
    assert!(validate_chronology(0, 50, 50));
    assert!(!validate_chronology(0, 50, 51));
    assert!(!validate_chronology(0, 51, 50));
}

#[test]
fn recurring_chronology_requires_one_full_interval() {
    // One full interval must fit before the end, non-strictly.
    assert!(validate_chronology(10, 0, 10));
    assert!(validate_chronology(10, 0, 30));
    assert!(validate_chronology(10, 20, 30));
    assert!(!validate_chronology(10, 21, 30));
    assert!(!validate_chronology(10, 0, 9));
    // An interval longer than the whole span never fits.
    assert!(!validate_chronology(100, 0, 30));
}

#[test]
fn one_shot_schedule_has_one_installment() {
    assert_eq!(num_installments(0, 50, 50), 1);
}

#[test]
fn exact_division_counts_whole_intervals() {
    assert_eq!(num_installments(10, 0, 30), 3);
    assert_eq!(num_installments(10, 0, 10), 1);
    assert_eq!(num_installments(10, 20, 30), 1);
}

#[test]
fn partial_final_interval_rounds_up() {
    assert_eq!(num_installments(10, 0, 25), 3);
    assert_eq!(num_installments(10, 0, 11), 2);
    assert_eq!(num_installments(7, 3, 20), 3);
}

#[test]
fn fee_constants_hold_the_documented_split() {
    assert_eq!(TRANSFER_FEE_DISTRIBUTOR, 1000);
    assert_eq!(TRANSFER_FEE_PROGRAM, 1000);
}

#[test]
fn fee_reserve_is_count_times_split() {
    // executor 1000 + protocol 1000 over three installments.
    assert_eq!(total_fee_reserve(1000, 1000, 3), Some(6000));
    assert_eq!(total_fee_reserve(250, 750, 4), Some(4000));
    assert_eq!(total_fee_reserve(0, 0, 100), Some(0));
}

#[test]
fn fee_reserve_overflow_is_reported() {
    assert_eq!(total_fee_reserve(u64::MAX, 1, 1), None);
    assert_eq!(total_fee_reserve(u64::MAX, 0, 2), None);
    assert_eq!(total_fee_reserve(1000, 1000, u64::MAX), None);
}
