use ferrum::event::{body_cut, body_from_bytes, check_header_values, finish_body, truncation_notice, MAX_BODY_BYTES};

#[test]
fn header_values_with_line_breaks_are_refused() {
    let ok = vec![("A".to_string(), "1".to_string()), ("B".to_string(), "two words".to_string())];
    assert_eq!(check_header_values(&ok), Ok(()));
    let bad = vec![
        ("A".to_string(), "1".to_string()),
        ("X-Evil".to_string(), "v\r\nSet-Cookie: a".to_string()),
        ("Y".to_string(), "\n".to_string()),
    ];
    assert_eq!(
        check_header_values(&bad),
        Err("Invalid header value for 'X-Evil': contains CRLF".to_string())
    );
    let lf = vec![("Y".to_string(), "a\nb".to_string())];
    assert_eq!(check_header_values(&lf), Err("Invalid header value for 'Y': contains CRLF".to_string()));
    let cr = vec![("Z".to_string(), "a\rb".to_string())];
    assert!(check_header_values(&cr).is_err());
    assert_eq!(check_header_values(&Vec::new()), Ok(()));
}

#[test]
fn body_is_cut_at_ten_mebibytes() {
    assert_eq!(MAX_BODY_BYTES, 10 * 1024 * 1024);
    assert_eq!(body_cut(0), (0, false));
    assert_eq!(body_cut(MAX_BODY_BYTES), (MAX_BODY_BYTES, false));
    assert_eq!(body_cut(MAX_BODY_BYTES + 1), (MAX_BODY_BYTES, true));
}

#[test]
fn truncated_body_carries_the_notice() {
    assert_eq!(truncation_notice(), "\n\n[… truncated — response exceeded 10 MiB]");
    assert_eq!(finish_body("abc".to_string(), false), "abc");
    assert_eq!(finish_body("abc".to_string(), true), "abc\n\n[… truncated — response exceeded 10 MiB]");
}

#[test]
fn body_is_decoded_from_the_kept_bytes() {
    assert_eq!(body_from_bytes("héllo".as_bytes()), "héllo");
    assert_eq!(body_from_bytes(&[0x61, 0xff, 0x62]), "a\u{FFFD}b");
    assert_eq!(body_from_bytes(&[]), "");
    let mut big = vec![b'x'; MAX_BODY_BYTES];
    big.extend_from_slice(b"tail");
    let shown = body_from_bytes(&big);
    assert!(shown.starts_with("xxxx"));
    assert!(!shown.contains("tail"));
    assert!(shown.ends_with("\n\n[… truncated — response exceeded 10 MiB]"));
    assert_eq!(shown.len(), MAX_BODY_BYTES + truncation_notice().len());
    let mut split = vec![b'y'; MAX_BODY_BYTES - 1];
    split.extend_from_slice("é".as_bytes());
    let cut = body_from_bytes(&split);
    assert!(cut.starts_with("yyy"));
    assert!(cut.contains('\u{FFFD}'));
}
