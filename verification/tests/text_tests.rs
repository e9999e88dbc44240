use servio::headers::Headers;
use servio::strutil::{contains_token_ignore_case, split_tokens, str_eq, str_eq_ignore_case, u64_dec};

#[test]
fn exact_comparison_is_by_characters() {
    assert!(str_eq("upgrade", "upgrade"));
    assert!(!str_eq("upgrade", "Upgrade"));
    assert!(!str_eq("upgrade", "upgrad"));
    assert!(str_eq("", ""));
}

#[test]
fn case_insensitive_comparison_folds_ascii_letters_only() {
    assert!(str_eq_ignore_case("WebSocket", "websocket"));
    assert!(str_eq_ignore_case("UPGRADE", "upgrade"));
    assert!(!str_eq_ignore_case("websocket", "websockets"));
    assert!(!str_eq_ignore_case("web_socket", "web socket"));
}

#[test]
fn tokens_split_on_spaces_and_commas_without_empties() {
    assert_eq!(
        split_tokens("keep-alive, Upgrade"),
        vec!["keep-alive".to_string(), "Upgrade".to_string()]
    );
    assert_eq!(split_tokens("  a,,b  c "), vec!["a".to_string(), "b".to_string(), "c".to_string()]);
    assert_eq!(split_tokens(""), Vec::<String>::new());
    assert_eq!(split_tokens(" ,, "), Vec::<String>::new());
}

#[test]
fn token_membership_ignores_case() {
    assert!(contains_token_ignore_case("keep-alive, Upgrade", "upgrade"));
    assert!(!contains_token_ignore_case("keep-alive", "upgrade"));
    assert!(!contains_token_ignore_case("upgraded", "upgrade"));
}

#[test]
fn decimal_rendering_is_exact() {
    assert_eq!(u64_dec(0).as_str(), "0");
    assert_eq!(u64_dec(7).as_str(), "7");
    assert_eq!(u64_dec(10).as_str(), "10");
    assert_eq!(u64_dec(1048576).as_str(), "1048576");
    assert_eq!(u64_dec(u64::MAX).as_str(), "18446744073709551615");
}

#[test]
fn headers_keep_appended_entries_in_order() {
    let mut h = Headers::new();
    h.append(String::from("via"), String::from("a"));
    h.append(String::from("via"), String::from("b"));
    assert_eq!(h.len(), 2);
    assert_eq!(h.get("via").expect("first entry").as_str(), "a");
    let all = h.get_all("via");
    assert_eq!(all, vec!["a".to_string(), "b".to_string()]);
}

#[test]
fn headers_insert_replaces_all_entries_of_a_name() {
    let mut h = Headers::new();
    h.append(String::from("via"), String::from("a"));
    h.append(String::from("other"), String::from("x"));
    h.append(String::from("via"), String::from("b"));
    h.insert(String::from("via"), String::from("c"));
    assert_eq!(h.get_all("via"), vec!["c".to_string()]);
    assert_eq!(h.get("other").expect("untouched entry").as_str(), "x");
}

#[test]
fn header_lookup_misses_are_none() {
    let h = Headers::new();
    assert!(h.get("absent").is_none());
    assert!(!h.contains("absent"));
    assert_eq!(h.get_all("absent"), Vec::<String>::new());
}
