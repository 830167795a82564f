use ferrum::app::encoding::{base64_encode, percent_encode};
use ferrum::app::send::{query_string, rows_for};
use ferrum::models::environment::{EnvVar, Environment};
use ferrum::models::request::KeyValuePair;

#[test]
fn base64_of_credentials() {
    assert_eq!(base64_encode(b"user:pass"), "dXNlcjpwYXNz");
    assert_eq!(base64_encode(b""), "");
    assert_eq!(base64_encode(b"a"), "YQ==");
    assert_eq!(base64_encode(b"ab"), "YWI=");
    assert_eq!(base64_encode(b"abc"), "YWJj");
    assert_eq!(base64_encode(&[0xff, 0xfe, 0x00, 0x3f]), "//4APw==");
}

#[test]
fn base64_length_is_four_per_started_triple() {
    for n in 0..20usize {
        let bytes = vec![7u8; n];
        assert_eq!(base64_encode(&bytes).len(), 4 * ((n + 2) / 3));
    }
}

#[test]
fn percent_encoding_keeps_only_unreserved() {
    assert_eq!(percent_encode("a b&c"), "a%20b%26c");
    assert_eq!(percent_encode("AZaz09-_.~"), "AZaz09-_.~");
    assert_eq!(percent_encode("é"), "%C3%A9");
    assert_eq!(percent_encode("a=b?c#d/e"), "a%3Db%3Fc%23d%2Fe");
    assert_eq!(percent_encode(""), "");
}

#[test]
fn percent_encoded_text_has_no_delimiters() {
    let s = percent_encode("k&v=x?y#z");
    assert!(!s.contains('&') && !s.contains('=') && !s.contains('?') && !s.contains('#'));
}

#[test]
fn sent_rows_skip_disabled_and_empty_keys() {
    let mut env = Environment::new("e");
    env.vars.push(EnvVar::new("V", "val"));
    let mut off = KeyValuePair::new("off", "1");
    off.enabled = false;
    let rows = vec![KeyValuePair::new("k", "{{V}}"), off, KeyValuePair::new("", "x"), KeyValuePair::new("{{V}}", "2")];
    let sent = rows_for(&rows, Some(&env));
    assert_eq!(
        sent,
        vec![("k".to_string(), "val".to_string()), ("val".to_string(), "2".to_string())]
    );
    let plain = rows_for(&rows, None);
    assert_eq!(plain[0], ("k".to_string(), "{{V}}".to_string()));
}

#[test]
fn query_string_joins_encoded_pairs() {
    let ps = vec![("q".to_string(), "a b".to_string()), ("x&y".to_string(), "1".to_string())];
    assert_eq!(query_string(&ps), "q=a%20b&x%26y=1");
    assert_eq!(query_string(&Vec::new()), "");
}
