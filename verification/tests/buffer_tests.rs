use bpftrace_jobs::buffer::LineBuffer;
use bpftrace_jobs::numfmt::usize_to_decimal;
use bpftrace_jobs::text::{has_prefix, prefixed, str_eq};

#[test]
fn empty_buffer_reads_empty() {
    let b = LineBuffer::new(5);
    assert_eq!(b.len(), 0);
    let out = b.read_window(0, 10);
    assert!(out.is_empty());
}

#[test]
fn appends_below_capacity_are_stored_in_order() {
    let mut b = LineBuffer::new(5);
    b.add_line("one".to_string());
    b.add_line("two".to_string());
    b.add_line("three".to_string());
    assert_eq!(b.len(), 3);
    let out = b.read_window(0, 10);
    assert_eq!(out, vec!["one".to_string(), "two".to_string(), "three".to_string()]);
}

#[test]
fn append_at_capacity_stores_one_marker_then_nothing() {
    let cap = 3;
    let mut b = LineBuffer::new(cap);
    for i in 0..cap {
        b.add_line(format!("line{}", i));
    }
    assert_eq!(b.len(), cap);
    // The append at capacity stores the one truncation marker.
    b.add_line("dropped".to_string());
    assert_eq!(b.len(), cap + 1);
    let out = b.read_window(0, 10);
    assert_eq!(out[cap], "[Output truncated at 3 lines]".to_string());
    assert_eq!(out[0], "line0".to_string());
    assert_eq!(out[2], "line2".to_string());
    // Every further append is a no-op; the length never exceeds cap + 1.
    for i in 0..10 {
        b.add_line(format!("extra{}", i));
        assert_eq!(b.len(), cap + 1);
    }
    let again = b.read_window(0, 10);
    assert_eq!(again.len(), cap + 1);
    assert_eq!(again[cap], "[Output truncated at 3 lines]".to_string());
}

#[test]
fn window_is_clamped() {
    let mut b = LineBuffer::new(10);
    for i in 0..4 {
        b.add_line(format!("l{}", i));
    }
    let out = b.read_window(2, 100);
    assert_eq!(out, vec!["l2".to_string(), "l3".to_string()]);
    let past_end = b.read_window(9, 3);
    assert!(past_end.is_empty());
}

#[test]
fn decimal_rendering_is_exact() {
    assert_eq!(usize_to_decimal(0), "0".to_string());
    assert_eq!(usize_to_decimal(7), "7".to_string());
    assert_eq!(usize_to_decimal(42), "42".to_string());
    assert_eq!(usize_to_decimal(10000), "10000".to_string());
    assert_eq!(usize_to_decimal(90210), "90210".to_string());
    assert_eq!(usize_to_decimal(4294967295), "4294967295".to_string());
}

#[test]
fn prefix_test_matches_literal_prefixes() {
    assert!(has_prefix("[sudo] password for root:", "[sudo] password"));
    assert!(!has_prefix("attaching 1 probe", "[sudo] password"));
    assert!(has_prefix("abc", ""));
    assert!(!has_prefix("ab", "abc"));
}

#[test]
fn string_equality_and_prefixing() {
    assert!(str_eq("exec_12ab34cd", "exec_12ab34cd"));
    assert!(!str_eq("exec_12ab34cd", "exec_12ab34ce"));
    assert!(!str_eq("a", "ab"));
    assert_eq!(prefixed("[Error] ", "oops"), "[Error] oops".to_string());
}
