use mw_log::buffer::BufWriter;

#[test]
fn short_write_is_stored_and_terminated() {
    let mut w = BufWriter::<8>::new();
    assert!(w.write_str("abc").is_ok());
    assert_eq!(w.as_bytes(), b"abc");
    assert_eq!(w.as_bytes_with_nul(), b"abc\0");
    assert_eq!(w.len(), 3);
}

#[test]
fn write_of_capacity_minus_one_fits() {
    let mut w = BufWriter::<8>::new();
    assert!(w.write_str("abcdefg").is_ok());
    assert_eq!(w.as_bytes_with_nul(), b"abcdefg\0");
}

#[test]
fn write_of_capacity_fails_and_leaves_empty() {
    let mut w = BufWriter::<8>::new();
    assert!(w.write_str("abcdefgh").is_err());
    assert_eq!(w.as_bytes(), b"");
    assert_eq!(w.as_bytes_with_nul(), b"\0");
}

#[test]
fn write_longer_than_capacity_fails() {
    let mut w = BufWriter::<4>::new();
    assert!(w.write_str("this is far too long").is_err());
    assert_eq!(w.len(), 0);
}

#[test]
fn failed_write_keeps_earlier_content() {
    let mut w = BufWriter::<8>::new();
    assert!(w.write_str("abcd").is_ok());
    assert!(w.write_str("efgh").is_err());
    assert_eq!(w.as_bytes_with_nul(), b"abcd\0");
    assert!(w.write_str("efg").is_ok());
    assert_eq!(w.as_bytes(), b"abcdefg");
    assert!(w.write_byte(b'x').is_err());
}

#[test]
fn empty_write_succeeds() {
    let mut w = BufWriter::<1>::new();
    assert!(w.write_str("").is_ok());
    assert!(w.write_str("a").is_err());
    assert_eq!(w.as_bytes_with_nul(), b"\0");
}

#[test]
fn multibyte_text_counts_bytes() {
    let mut w = BufWriter::<4>::new();
    assert!(w.write_str("\u{e9}\u{e9}").is_err());
    assert!(w.write_str("\u{e9}").is_ok());
    assert_eq!(w.as_bytes(), "\u{e9}".as_bytes());
}

#[test]
fn pieces_stop_at_first_that_does_not_fit() {
    let mut w = BufWriter::<8>::new();
    let pieces = vec!["ab".to_string(), "cdefgh".to_string(), "i".to_string()];
    assert!(w.write_pieces(&pieces).is_err());
    assert_eq!(w.as_bytes(), b"ab");
    let mut v = BufWriter::<8>::new();
    let fit = vec!["ab".to_string(), "cd".to_string()];
    assert!(v.write_pieces(&fit).is_ok());
    assert_eq!(v.as_bytes(), b"abcd");
}

#[test]
fn pop_and_last() {
    let mut w = BufWriter::<8>::new();
    assert_eq!(w.last(), None);
    assert!(w.write_str("a:").is_ok());
    assert_eq!(w.last(), Some(b':'));
    w.pop();
    assert_eq!(w.as_bytes_with_nul(), b"a\0");
}
