use backend_supervisor::text::contains;
use backend_supervisor::text::ends_with;
use backend_supervisor::text::format_decimal;
use backend_supervisor::text::lines;
use backend_supervisor::text::same_bytes;
use backend_supervisor::text::trim;
use backend_supervisor::text::words;

#[test]
fn contains_finds_a_word_in_the_middle() {
    assert!(contains(b"an Error occurred", b"Error"));
    assert!(!contains(b"an error occurred", b"Error"));
}

#[test]
fn contains_accepts_the_empty_needle() {
    assert!(contains(b"", b""));
    assert!(contains(b"abc", b""));
    assert!(!contains(b"", b"a"));
}

#[test]
fn ends_with_checks_the_suffix() {
    assert!(ends_with(b"backend-server.exe", b".exe"));
    assert!(!ends_with(b"backend-server", b".exe"));
    assert!(!ends_with(b"exe", b".exe"));
}

#[test]
fn trim_removes_blanks_at_both_ends() {
    assert_eq!(trim(b"  \t 1234 \r\n"), b"1234".to_vec());
    assert_eq!(trim(b"a b"), b"a b".to_vec());
    assert_eq!(trim(b" \n "), Vec::<u8>::new());
}

#[test]
fn lines_splits_at_line_feeds() {
    assert_eq!(lines(b"12\n34\r\n56"), vec![b"12".to_vec(), b"34".to_vec(), b"56".to_vec()]);
    assert_eq!(lines(b"12\n"), vec![b"12".to_vec()]);
    assert_eq!(lines(b"\n\n"), vec![Vec::<u8>::new(), Vec::<u8>::new()]);
    assert_eq!(lines(b""), Vec::<Vec<u8>>::new());
    assert_eq!(lines(b"ab\r"), vec![b"ab\r".to_vec()]);
}

#[test]
fn words_are_split_at_blanks() {
    assert_eq!(
        words(b"  TCP  0.0.0.0:8000\t0.0.0.0:0  LISTENING  4242  "),
        vec![
            b"TCP".to_vec(),
            b"0.0.0.0:8000".to_vec(),
            b"0.0.0.0:0".to_vec(),
            b"LISTENING".to_vec(),
            b"4242".to_vec(),
        ]
    );
    assert_eq!(words(b"4242"), vec![b"4242".to_vec()]);
    assert_eq!(words(b"a b"), vec![b"a".to_vec(), b"b".to_vec()]);
    assert_eq!(words(b"   "), Vec::<Vec<u8>>::new());
    assert_eq!(words(b""), Vec::<Vec<u8>>::new());
}

#[test]
fn same_bytes_compares_whole_texts() {
    assert!(same_bytes(b"LISTENING", b"LISTENING"));
    assert!(!same_bytes(b"LISTENING", b"LISTEN"));
    assert!(!same_bytes(b"LISTEN", b"LISTENING"));
    assert!(!same_bytes(b"LISTENING", b"LISTENINg"));
    assert!(same_bytes(b"", b""));
}

#[test]
fn format_decimal_writes_digits() {
    assert_eq!(format_decimal(0), b"0".to_vec());
    assert_eq!(format_decimal(8000), b"8000".to_vec());
    assert_eq!(format_decimal(u64::MAX), b"18446744073709551615".to_vec());
}
