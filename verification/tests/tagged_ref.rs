use ref_with_2_flags::RefWith2Flags;

use std::cell::Cell;

#[test]
fn round_trip_all_flag_combinations() {
    let value: u64 = 0xDEAD_BEEF;

    let ff = RefWith2Flags::new(&value, false, false);
    assert_eq!(ff.get_flag_a(), false);
    assert_eq!(ff.get_flag_b(), false);
    assert_eq!(*ff.get_ref(), 0xDEAD_BEEF);

    let ft = RefWith2Flags::new(&value, false, true);
    assert_eq!(ft.get_flag_a(), false);
    assert_eq!(ft.get_flag_b(), true);
    assert_eq!(*ft.get_ref(), 0xDEAD_BEEF);

    let tf = RefWith2Flags::new(&value, true, false);
    assert_eq!(tf.get_flag_a(), true);
    assert_eq!(tf.get_flag_b(), false);
    assert_eq!(*tf.get_ref(), 0xDEAD_BEEF);

    let tt = RefWith2Flags::new(&value, true, true);
    assert_eq!(tt.get_flag_a(), true);
    assert_eq!(tt.get_flag_b(), true);
    assert_eq!(*tt.get_ref(), 0xDEAD_BEEF);
}

#[test]
fn accessors_are_repeatable() {
    let value: i32 = -7;
    let tagged = RefWith2Flags::new(&value, true, true);
    for _ in 0..3 {
        assert_eq!(tagged.get_flag_a(), true);
        assert_eq!(tagged.get_flag_b(), true);
        assert_eq!(*tagged.get_ref(), -7);
    }
}

#[test]
fn alignment_rejected_for_one_byte_alignment() {
    let value: u8 = 42;
    for _ in 0..3 {
        assert!(RefWith2Flags::try_new(&value, true, false).is_none());
    }
}

#[test]
fn alignment_rejected_for_two_byte_alignment() {
    let value: u16 = 42;
    for _ in 0..3 {
        assert!(RefWith2Flags::try_new(&value, false, true).is_none());
        assert!(RefWith2Flags::try_new(&value, false, false).is_none());
    }
}

#[test]
fn alignment_accepted_for_four_byte_and_wider_types() {
    let a: i32 = 1;
    let b: u64 = 2;
    let c: Vec<i32> = vec![3];
    let tagged = RefWith2Flags::try_new(&a, true, true).unwrap();
    assert_eq!(*tagged.get_ref(), 1);
    assert_eq!(tagged.get_flag_a(), true);
    assert_eq!(tagged.get_flag_b(), true);
    assert!(RefWith2Flags::try_new(&b, false, false).is_some());
    assert!(RefWith2Flags::try_new(&c, true, false).is_some());
}

#[test]
fn get_ref_returns_the_same_storage() {
    let value: u32 = 99;
    let tagged = RefWith2Flags::new(&value, false, true);
    assert!(std::ptr::eq(tagged.get_ref(), &value));
}

#[test]
fn external_mutation_is_visible_through_get_ref() {
    let cell: Cell<i32> = Cell::new(10);
    let tagged = RefWith2Flags::new(&cell, true, false);
    assert_eq!(tagged.get_ref().get(), 10);
    cell.set(99);
    assert_eq!(tagged.get_ref().get(), 99);
    assert_eq!(tagged.get_flag_a(), true);
    assert_eq!(tagged.get_flag_b(), false);
}

#[test]
fn sequence_scenario() {
    let vec = vec![10, 20, 30];
    let flagged = RefWith2Flags::new(&vec, true, false);
    assert_eq!(flagged.get_ref()[1], 20);
    assert_eq!(flagged.get_flag_a(), true);
    assert_eq!(flagged.get_flag_b(), false);
    assert_eq!(flagged.get_ref()[2], 30);
}

#[test]
fn instances_over_one_value_stay_independent() {
    let value: u64 = 1234;
    let first = RefWith2Flags::new(&value, true, false);
    let second = RefWith2Flags::new(&value, false, true);
    let third = RefWith2Flags::new(&value, true, true);
    assert_eq!(first.get_flag_a(), true);
    assert_eq!(first.get_flag_b(), false);
    assert_eq!(second.get_flag_a(), false);
    assert_eq!(second.get_flag_b(), true);
    assert_eq!(third.get_flag_a(), true);
    assert_eq!(third.get_flag_b(), true);
    assert_eq!(*first.get_ref(), 1234);
    assert_eq!(*second.get_ref(), 1234);
    assert_eq!(*third.get_ref(), 1234);
    assert_eq!(value, 1234);
}
