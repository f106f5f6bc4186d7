use wasmer_engine_universal::align::{checked_round_up, is_power_of_two_exec};
use wasmer_engine_universal::round_up;

#[test]
fn round_up_keeps_multiples() {
    assert_eq!(round_up(0, 16), 0);
    assert_eq!(round_up(16, 16), 16);
    assert_eq!(round_up(4096, 4096), 4096);
}

#[test]
fn round_up_goes_to_next_multiple() {
    assert_eq!(round_up(1, 16), 16);
    assert_eq!(round_up(17, 16), 32);
    assert_eq!(round_up(5, 4), 8);
    assert_eq!(round_up(65, 64), 128);
    assert_eq!(round_up(4097, 4096), 8192);
    assert_eq!(round_up(7, 1), 7);
}

#[test]
fn checked_round_up_detects_overflow() {
    assert_eq!(checked_round_up(17, 16), Some(32));
    assert_eq!(checked_round_up(usize::MAX, 16), None);
    assert_eq!(checked_round_up(usize::MAX - 15, 16), Some(usize::MAX - 15));
    assert_eq!(checked_round_up(usize::MAX - 14, 16), None);
    assert_eq!(checked_round_up(usize::MAX, 1), Some(usize::MAX));
}

#[test]
fn powers_of_two_are_recognised() {
    assert!(is_power_of_two_exec(1));
    assert!(is_power_of_two_exec(2));
    assert!(is_power_of_two_exec(4096));
    assert!(is_power_of_two_exec(1 << (usize::BITS - 1)));
    assert!(!is_power_of_two_exec(0));
    assert!(!is_power_of_two_exec(3));
    assert!(!is_power_of_two_exec(4097));
    assert!(!is_power_of_two_exec(usize::MAX));
}
