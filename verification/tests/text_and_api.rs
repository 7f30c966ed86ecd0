use kaishi::api::{api_error_text, HermesClient};
use kaishi::text::{
    byte_prefix_string, char_index, contains_chars, decimal_string, prefix_bytes, to_chars,
    trimmed, utf8_len_exceeds,
};

fn chars(s: &str) -> Vec<char> {
    s.chars().collect()
}

#[test]
fn decimal_rendering_matches_std() {
    for n in [0u64, 7, 10, 15, 99, 100, 12345, u64::MAX] {
        assert_eq!(decimal_string(n), n.to_string());
    }
}

#[test]
fn prefix_bytes_matches_utf8_encoding() {
    let s = "aé€😀z";
    let v = chars(s);
    for k in 0..=v.len() {
        let expected: usize = v[..k].iter().map(|c| c.len_utf8()).sum();
        assert_eq!(prefix_bytes(&v, k), expected);
    }
    assert_eq!(prefix_bytes(&v, v.len()), s.len());
}

#[test]
fn char_index_finds_character_boundaries() {
    let v = chars("aé€😀z");
    assert_eq!(char_index(&v, 0), 0);
    assert_eq!(char_index(&v, 1), 1);
    assert_eq!(char_index(&v, 3), 2);
    assert_eq!(char_index(&v, 6), 3);
    assert_eq!(char_index(&v, 10), 4);
    assert_eq!(char_index(&v, 11), 5);
}

#[test]
fn trimming_uses_unicode_whitespace() {
    assert_eq!(trimmed(&chars("  hi there \t\n")), "hi there");
    assert_eq!(trimmed(&chars("\u{3000}x\u{a0}")), "x");
    assert_eq!(trimmed(&chars("   ")), "");
    let s = " \u{85}a b\u{2009} ";
    assert_eq!(trimmed(&chars(s)), s.trim());
}

#[test]
fn contains_finds_substrings() {
    assert!(contains_chars(&chars("Loading sessions…"), &chars("Loading")));
    assert!(contains_chars(&chars("xLoading"), &chars("Loading")));
    assert!(!contains_chars(&chars("Loadin"), &chars("Loading")));
    assert!(contains_chars(&chars("abc"), &chars("")));
}

#[test]
fn byte_prefix_cuts_long_text_only() {
    assert_eq!(byte_prefix_string(&chars("0123456789abcdef"), 12), "0123456789ab");
    assert_eq!(byte_prefix_string(&chars("short"), 12), "short");
    assert_eq!(byte_prefix_string(&chars("0123456789ab"), 12), "0123456789ab");
    assert!(utf8_len_exceeds(&chars("ééééééé"), 12));
    assert!(!utf8_len_exceeds(&chars("éééééé"), 12));
}

#[test]
fn to_chars_keeps_every_character() {
    assert_eq!(to_chars("a€😀"), vec!['a', '€', '😀']);
}

#[test]
fn client_drops_trailing_slashes() {
    let c = HermesClient::new("http://127.0.0.1:8642///", "", "hermes-agent");
    assert_eq!(c.base_url(), "http://127.0.0.1:8642");
    assert_eq!(c.model(), "hermes-agent");
    assert_eq!(c.api_key(), "");
    let c2 = HermesClient::new("http://h/v1/x", "k", "m");
    assert_eq!(c2.base_url(), "http://h/v1/x");
}

#[test]
fn auth_header_only_with_key() {
    let c = HermesClient::new("http://h", "", "m");
    assert_eq!(c.auth_header(), None);
    let c = HermesClient::new("http://h", "abc123", "m");
    assert_eq!(c.auth_header(), Some("Bearer abc123".to_string()));
}

#[test]
fn request_urls() {
    let c = HermesClient::new("http://h:1/", "", "m");
    assert_eq!(c.chat_url(), "http://h:1/v1/chat/completions");
    assert_eq!(c.sessions_url(15), "http://h:1/v1/sessions?limit=15");
    assert_eq!(c.session_messages_url("abc"), "http://h:1/v1/sessions/abc/messages");
    assert_eq!(c.status_url(), "http://h:1/v1/status");
    assert_eq!(c.approve_url(), "http://h:1/v1/approve");
    assert_eq!(c.deny_url(), "http://h:1/v1/deny");
}

#[test]
fn api_error_text_format() {
    assert_eq!(api_error_text("404 Not Found", "nope"), "API error 404 Not Found: nope");
}
