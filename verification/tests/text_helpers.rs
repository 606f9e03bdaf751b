use leptos_solana::text::{chars_of, mentions_phrase, push_decimal_i64, push_decimal_u64, same_text, starts_with};

#[test]
fn chars_of_keeps_order() {
    assert_eq!(chars_of("sol"), vec!['s', 'o', 'l']);
    assert_eq!(chars_of(""), Vec::<char>::new());
}

#[test]
fn starts_with_matches_prefixes() {
    assert!(starts_with("solana:mainnet", "solana:"));
    assert!(!starts_with("ethereum:1", "solana:"));
    assert!(!starts_with("sol", "solana:"));
    assert!(starts_with("anything", ""));
}

#[test]
fn mentions_phrase_ignores_ascii_case() {
    assert!(mentions_phrase("Error: Blockhash NOT found", "blockhash not found"));
    assert!(mentions_phrase("insufficient funds", "insufficient funds"));
    assert!(!mentions_phrase("blockhash missing", "blockhash not found"));
    assert!(!mentions_phrase("short", "a much longer phrase"));
    assert!(mentions_phrase("", ""));
}

#[test]
fn same_text_compares_characters() {
    assert!(same_text("Phantom", "Phantom"));
    assert!(!same_text("Phantom", "phantom"));
    assert!(!same_text("Phantom", "Phantom "));
}

#[test]
fn decimal_text_of_integers() {
    let mut s = String::new();
    push_decimal_i64(&mut s, 0);
    assert_eq!(s, "0");
    let mut s = String::from("x=");
    push_decimal_i64(&mut s, -32602);
    assert_eq!(s, "x=-32602");
    let mut s = String::new();
    push_decimal_i64(&mut s, i64::MIN);
    assert_eq!(s, i64::MIN.to_string());
    let mut s = String::new();
    push_decimal_i64(&mut s, i64::MAX);
    assert_eq!(s, i64::MAX.to_string());
    let mut s = String::new();
    push_decimal_u64(&mut s, u64::MAX);
    assert_eq!(s, u64::MAX.to_string());
}
