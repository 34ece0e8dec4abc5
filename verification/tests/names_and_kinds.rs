use coz::backend::{entry_point_symbol, resolved};
use coz::counter::count_field_fits;
use coz::kind::{
    COZ_COUNTER_TYPE_BEGIN, COZ_COUNTER_TYPE_END, COZ_COUNTER_TYPE_THROUGHPUT,
};
use coz::name::{is_nul_terminated, is_nul_terminated_bytes};
use coz::{BackendHandle, CounterKind};

#[test]
fn kind_codes_are_one_two_three() {
    assert_eq!(CounterKind::Throughput.code(), 1);
    assert_eq!(CounterKind::Begin.code(), 2);
    assert_eq!(CounterKind::End.code(), 3);
    assert_eq!(COZ_COUNTER_TYPE_THROUGHPUT, 1);
    assert_eq!(COZ_COUNTER_TYPE_BEGIN, 2);
    assert_eq!(COZ_COUNTER_TYPE_END, 3);
}

#[test]
fn kind_codes_differ() {
    let kinds = [CounterKind::Throughput, CounterKind::Begin, CounterKind::End];
    for a in kinds.iter() {
        for b in kinds.iter() {
            assert_eq!(a.code() == b.code(), a == b);
        }
    }
}

#[test]
fn name_with_closing_nul_is_accepted() {
    assert!(is_nul_terminated("A\0"));
    assert!(is_nul_terminated("src/main.rs:17\0"));
    assert!(is_nul_terminated_bytes(b"requests\0"));
}

#[test]
fn name_of_one_nul_is_accepted() {
    assert!(is_nul_terminated("\0"));
    assert!(is_nul_terminated_bytes(&[0u8]));
}

#[test]
fn empty_name_is_refused() {
    assert!(!is_nul_terminated(""));
    assert!(!is_nul_terminated_bytes(&[]));
}

#[test]
fn name_without_closing_nul_is_refused() {
    assert!(!is_nul_terminated("A"));
    assert!(!is_nul_terminated("\0A"));
}

#[test]
fn name_with_inner_nul_is_refused() {
    assert!(!is_nul_terminated("a\0b\0"));
    assert!(!is_nul_terminated("\0\0"));
}

#[test]
fn name_with_wide_characters_is_read_by_bytes() {
    assert!(is_nul_terminated("z\u{e9}ro\0"));
    assert!(!is_nul_terminated("z\u{e9}ro"));
}

#[test]
fn entry_point_symbol_is_the_agents_export() {
    assert_eq!(entry_point_symbol(), "_coz_get_counter\0");
    assert!(is_nul_terminated(entry_point_symbol()));
}

#[test]
fn null_lookup_means_absent() {
    assert_eq!(resolved(0), BackendHandle::Absent);
}

#[test]
fn other_lookup_means_present_at_that_address() {
    assert_eq!(resolved(0x7f00_1000), BackendHandle::Present(0x7f00_1000));
    assert_eq!(resolved(1), BackendHandle::Present(1));
    assert_eq!(resolved(usize::MAX), BackendHandle::Present(usize::MAX));
}

#[test]
fn count_field_must_be_one_word() {
    assert!(count_field_fits(8, 8));
    assert!(count_field_fits(4, 4));
    assert!(!count_field_fits(4, 8));
    assert!(!count_field_fits(8, 4));
    assert!(!count_field_fits(0, 8));
}
