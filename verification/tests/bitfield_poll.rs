use phytium_hal::bits::{BitField, field_matches, modify_field, read_field, write_field};
use phytium_hal::poll::poll_field;
use phytium_hal::POLL_BOUND;

#[test]
fn it_works() {
}

#[test]
fn read_extracts_named_range() {
    let f = BitField { offset: 4, width: 4 };
    assert_eq!(read_field(0x0000_00a0, f), 0xa);
    assert_eq!(read_field(0xffff_ff0f, f), 0x0);
    let top = BitField { offset: 31, width: 1 };
    assert_eq!(read_field(0x8000_0000, top), 1);
}

#[test]
fn modify_replaces_only_the_named_range() {
    let reg: u32 = 0xdead_beef;
    let f = BitField { offset: 8, width: 8 };
    let r = modify_field(reg, f, 0x42);
    assert_eq!(read_field(r, f), 0x42);
    // Every bit outside the field is bit-for-bit unchanged.
    assert_eq!(r & !0x0000_ff00, reg & !0x0000_ff00);
    assert_eq!(read_field(r, BitField { offset: 0, width: 8 }), 0xef);
    assert_eq!(read_field(r, BitField { offset: 16, width: 16 }), 0xdead);
}

#[test]
fn modify_masks_oversized_values() {
    let f = BitField { offset: 0, width: 4 };
    let r = modify_field(0, f, 0x1_23);
    assert_eq!(r, 0x3);
}

#[test]
fn write_clears_everything_outside_the_field() {
    let f = BitField { offset: 16, width: 12 };
    assert_eq!(write_field(f, 0xabc), 0x0abc_0000);
}

#[test]
fn matches_compares_field_value() {
    let f = BitField { offset: 3, width: 1 };
    assert!(field_matches(0b1000, f, 1));
    assert!(!field_matches(0b0000, f, 1));
}

#[test]
fn poll_never_ready_fails_after_exactly_the_bound() {
    let f = BitField { offset: 0, width: 1 };
    let never = vec![0u32; 600];
    let outcome = poll_field(&never, f, 1, POLL_BOUND);
    assert!(!outcome.ready);
    assert_eq!(outcome.iterations, POLL_BOUND);
}

#[test]
fn poll_short_sample_trace_still_runs_to_the_bound() {
    let f = BitField { offset: 0, width: 1 };
    let few = vec![0u32; 3];
    let outcome = poll_field(&few, f, 1, POLL_BOUND);
    assert!(!outcome.ready);
    assert_eq!(outcome.iterations, POLL_BOUND);
}

#[test]
fn poll_stops_at_first_ready_sample() {
    let f = BitField { offset: 9, width: 1 };
    let samples = vec![0u32, 0, 0, 1 << 9, 0];
    let outcome = poll_field(&samples, f, 1, POLL_BOUND);
    assert!(outcome.ready);
    assert_eq!(outcome.iterations, 4);
}

#[test]
fn poll_for_self_clearing_bit() {
    let f = BitField { offset: 2, width: 1 };
    let samples = vec![1u32 << 2, 1 << 2, 0];
    let outcome = poll_field(&samples, f, 0, POLL_BOUND);
    assert!(outcome.ready);
    assert_eq!(outcome.iterations, 3);
}
