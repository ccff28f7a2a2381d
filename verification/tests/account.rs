use std::convert::TryFrom;

use near_nft_cert::account::AccountId;
use near_nft_cert::error::RegistryError;
use near_sdk::json_types::ValidAccountId;

/// The rule for account identifiers, written out once more in plain Rust: 2 to
/// 64 characters, each a lower-case letter, a digit or a separator, and every
/// separator between two characters that are not separators.
fn follows_the_rule(text: &str) -> bool {
    let chars: Vec<char> = text.chars().collect();
    let separator = |c: char| c == '-' || c == '_' || c == '.';
    let name_char = |c: char| ('a'..='z').contains(&c) || ('0'..='9').contains(&c);
    if chars.len() < 2 || chars.len() > 64 {
        return false;
    }
    for i in 0..chars.len() {
        if !name_char(chars[i]) && !separator(chars[i]) {
            return false;
        }
        if separator(chars[i]) {
            if i == 0 || i + 1 == chars.len() {
                return false;
            }
            if separator(chars[i - 1]) || separator(chars[i + 1]) {
                return false;
            }
        }
    }
    true
}

fn texts_up_to(alphabet: &[char], max_len: usize) -> Vec<String> {
    let mut all = vec![String::new()];
    let mut last = vec![String::new()];
    for _ in 0..max_len {
        let mut next = Vec::new();
        for text in &last {
            for c in alphabet {
                let mut longer = text.clone();
                longer.push(*c);
                next.push(longer);
            }
        }
        all.extend(next.iter().cloned());
        last = next;
    }
    all
}

#[test]
fn accepts_well_formed_identifiers() {
    let good = [
        "aa",
        "a-a",
        "a_b",
        "alice.near",
        "admin",
        "0o",
        "10-4.8-2",
        "b-o_w_e-n",
        "no_lols",
        "bro.wen",
        "over.9000",
        "google.com",
        "illia.cheapaccounts.near",
        "0o0ooo00oo00o",
        "alex-skidanov",
        "a.b-c_d.e0",
        "0123456789012345678901234567890123456789012345678901234567890123",
    ];
    for text in good {
        let id = AccountId::new(text.to_string());
        assert!(id.is_ok(), "{} should be accepted", text);
        let id = id.unwrap();
        assert_eq!(id.as_str(), text);
        assert_eq!(id.to_string(), text.to_string());
    }
}

#[test]
fn refuses_malformed_identifiers() {
    let bad = [
        "",
        "a",
        "A",
        "Abc",
        "alice.NEAR",
        "-near",
        "near-",
        "-near-",
        "near.",
        ".near",
        "near@",
        "@near",
        "a..near",
        "a--b",
        "a__b",
        "a-.b",
        "a_-b",
        "a b",
        "nEar",
        "_bowen",
        "hello world",
        "abcdefghijklmnopqrstuvwxyz.abcdefghijklmnopqrstuvwxyz.abcdefghijklmnopqrstuvwxyz",
        "01234567890123456789012345678901234567890123456789012345678901234",
        "\u{e9}t\u{e9}",
        "al\u{ed}ce",
        "a\u{0}",
        "near\n",
    ];
    for text in bad {
        let id = AccountId::new(text.to_string());
        assert_eq!(id.err(), Some(RegistryError::InvalidIdentifier), "{:?} should be refused", text);
    }
}

#[test]
fn length_bounds_are_two_and_sixty_four() {
    assert!(AccountId::new("a".repeat(1)).is_err());
    assert!(AccountId::new("a".repeat(2)).is_ok());
    assert!(AccountId::new("a".repeat(64)).is_ok());
    assert!(AccountId::new("a".repeat(65)).is_err());
    // Two-byte characters: 32 of them are 64 bytes, and still refused.
    assert!(AccountId::new("\u{e9}".repeat(32)).is_err());
    assert!(AccountId::new("\u{e9}".repeat(2)).is_err());
}

#[test]
fn rule_holds_of_every_short_text() {
    let alphabet = ['a', 'z', '0', '9', '-', '_', '.', 'A', ' ', '@', '\u{e9}'];
    let mut accepted = 0;
    for text in texts_up_to(&alphabet, 4) {
        let library = AccountId::new(text.clone()).is_ok();
        assert_eq!(library, follows_the_rule(&text), "on {:?}", text);
        if library {
            accepted += 1;
        }
    }
    // 2 characters: 4 * 4; 3: 4 * 7 * 4; 4: 4 * (4 * 7 + 3 * 4) * 4.
    assert_eq!(accepted, 16 + 112 + 640);
}

#[test]
fn rule_holds_of_long_texts() {
    for len in 60..70usize {
        for separator in ['-', '_', '.'] {
            let mut chars: Vec<char> = std::iter::repeat('x').take(len).collect();
            let plain: String = chars.iter().collect();
            assert_eq!(AccountId::new(plain.clone()).is_ok(), follows_the_rule(&plain));
            assert_eq!(AccountId::new(plain.clone()).is_ok(), len <= 64);
            for at in [0, 1, len / 2, len - 2, len - 1] {
                chars[at] = separator;
                let text: String = chars.iter().collect();
                assert_eq!(AccountId::new(text.clone()).is_ok(), follows_the_rule(&text), "on {:?}", text);
                chars[at] = 'x';
            }
        }
    }
}

#[test]
fn agrees_with_the_host_library() {
    let alphabet = ['b', '7', '-', '.', 'Q'];
    for text in texts_up_to(&alphabet, 5) {
        let library = AccountId::new(text.clone()).is_ok();
        let host = ValidAccountId::try_from(text.clone()).is_ok();
        assert_eq!(library, host, "on {:?}", text);
    }
}

#[test]
fn identifiers_compare_by_text() {
    let a = AccountId::new("alice.near".to_string()).unwrap();
    let b = AccountId::new("alice.near".to_string()).unwrap();
    let c = AccountId::new("bob.near".to_string()).unwrap();
    assert_eq!(a, b);
    assert_ne!(a, c);
    assert_eq!(a.clone(), a);
    assert_eq!(a.clone().as_str(), "alice.near");
}
