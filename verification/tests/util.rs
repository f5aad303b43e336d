use rrd::error::{NulError, RrdError};
use rrd::util::{
    check_nul_free, find_nul, nul_free_copy, ArrayOfStrings, NullTerminatedArrayOfStrings,
};

fn strings(expected: &[&str]) -> Vec<String> {
    expected.iter().map(|s| s.to_string()).collect()
}

#[test]
fn array_all_ptrs_non_null() {
    let array = ArrayOfStrings::new(strings(&["one", "two"])).unwrap();
    assert_eq!(array.len(), 2);
    assert!(!array.is_empty());
    assert_ne!(array.as_ptr(), None);

    let table = array.as_ptr().unwrap();
    assert_ne!(table[0], None);
    assert_ne!(table[1], None);
}

#[test]
fn array_empty_is_null() {
    let source: &[&str] = &[];
    let array = ArrayOfStrings::new(strings(source)).unwrap();
    assert_eq!(array.len(), 0);
    assert!(array.is_empty());
    assert_eq!(array.as_ptr(), None);
}

#[test]
fn null_terminated_array_all_ptrs_non_null() {
    let array = NullTerminatedArrayOfStrings::new(strings(&["one", "two"])).unwrap();
    assert_eq!(array.len(), 2);
    assert!(!array.is_empty());
    assert_ne!(array.as_ptr(), None);

    let table = array.as_ptr().unwrap();
    assert_ne!(table[0], None);
    assert_ne!(table[1], None);
    assert_eq!(table[2], None);
}

#[test]
fn null_terminated_array_empty_is_null() {
    let source: &[&str] = &[];
    let array = NullTerminatedArrayOfStrings::new(strings(source)).unwrap();
    assert_eq!(array.len(), 0);
    assert!(array.is_empty());
    assert_eq!(array.as_ptr(), None);
}

#[test]
fn pointer_table_points_to_each_string_in_turn() {
    let array = ArrayOfStrings::new(strings(&["a", "b", "c"])).unwrap();
    assert_eq!(array.as_ptr().unwrap(), &vec![Some(0), Some(1), Some(2)]);
    assert_eq!(array.strings(), &strings(&["a", "b", "c"]));
    let array = NullTerminatedArrayOfStrings::new(strings(&["a", "b", "c"])).unwrap();
    assert_eq!(array.as_ptr().unwrap(), &vec![Some(0), Some(1), Some(2), None]);
    let array = NullTerminatedArrayOfStrings::new(strings(&["only"])).unwrap();
    assert_eq!(array.as_ptr().unwrap(), &vec![Some(0), None]);
}

#[test]
fn array_refuses_a_nul_byte() {
    let r = ArrayOfStrings::new(strings(&["fine", "ab\0c", "\0"]));
    assert_eq!(r.unwrap_err(), RrdError::NulError(NulError { position: 2 }));
    let r = NullTerminatedArrayOfStrings::new(strings(&["\0x"]));
    assert_eq!(r.unwrap_err(), RrdError::NulError(NulError { position: 0 }));
}

#[test]
fn nul_position_counts_bytes() {
    assert_eq!(find_nul("abc"), None);
    assert_eq!(find_nul(""), None);
    assert_eq!(find_nul("a\0b\0"), Some(1));
    // two bytes for the first character
    assert_eq!(find_nul("\u{e9}\0"), Some(2));
    assert_eq!(check_nul_free(&strings(&["a", "b"])), None);
    assert_eq!(check_nul_free(&strings(&["a", "bc\0", "\0"])), Some(NulError { position: 2 }));
}

#[test]
fn nul_free_copy_of_a_text() {
    assert_eq!(nul_free_copy("/tmp/a.rrd").unwrap(), "/tmp/a.rrd");
    assert_eq!(
        nul_free_copy("/tmp\0/a.rrd").unwrap_err(),
        RrdError::NulError(NulError { position: 4 })
    );
}

#[test]
fn array_from_strings_known_to_be_clean() {
    let array = ArrayOfStrings::from_nul_free(strings(&["x", "y"]));
    assert_eq!(array.len(), 2);
    assert_eq!(array.as_ptr().unwrap(), &vec![Some(0), Some(1)]);
}
