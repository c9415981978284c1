use oauth_session::token::random_alphanum;

#[test]
fn identifier_has_the_requested_length() {
    for len in [0usize, 1, 16, 32, 257] {
        assert_eq!(random_alphanum(len).chars().count(), len);
    }
}

#[test]
fn identifier_is_ascii_letters_and_digits() {
    let id = random_alphanum(4096);
    assert!(id.chars().all(|c| c.is_ascii_alphanumeric()));
    assert_eq!(id.len(), 4096);
}

#[test]
fn zero_length_identifier_is_empty() {
    assert_eq!(random_alphanum(0), "");
}

#[test]
fn identifiers_differ_between_calls() {
    let first = random_alphanum(32);
    let second = random_alphanum(32);
    assert_ne!(first, second);
}

#[test]
fn every_symbol_of_the_alphabet_occurs() {
    let sample = random_alphanum(20000);
    let mut seen = std::collections::BTreeSet::new();
    for c in sample.chars() {
        seen.insert(c);
    }
    assert_eq!(seen.len(), 62);
}
