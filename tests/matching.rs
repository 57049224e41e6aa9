use vanity_keygen::matcher::{contains_bytes_ignore_case, to_lowercase};
use vanity_keygen::search::normalize_target;

fn reference_find(h: &[u8], n: &[u8]) -> bool {
    if n.is_empty() {
        return true;
    }
    if n.len() > h.len() {
        return false;
    }
    (0..=h.len() - n.len()).any(|i| &h[i..i + n.len()] == n)
}

fn lower(v: &[u8]) -> Vec<u8> {
    v.iter().map(|b| b.to_ascii_lowercase()).collect()
}

fn samples() -> Vec<Vec<u8>> {
    let alphabet: &[u8] = b"aAbB1+";
    let mut out: Vec<Vec<u8>> = vec![Vec::new()];
    let mut layer: Vec<Vec<u8>> = vec![Vec::new()];
    for _ in 0..4 {
        let mut next = Vec::new();
        for s in &layer {
            for &c in alphabet {
                let mut t = s.clone();
                t.push(c);
                next.push(t);
            }
        }
        out.extend(next.iter().cloned());
        layer = next;
    }
    out
}

#[test]
fn mixed_case_target_found_ignoring_case() {
    assert!(vanity_keygen::matcher::matches(b"XYZaBc123", b"abc", false));
    assert!(!vanity_keygen::matcher::matches(b"XYZabd123", b"abc", false));
}

#[test]
fn case_sensitive_agrees_with_reference_search() {
    let all = samples();
    for h in all.iter().filter(|s| s.len() >= 2) {
        for n in all.iter().filter(|s| !s.is_empty() && s.len() <= 3) {
            assert_eq!(
                vanity_keygen::matcher::matches(h, n, true),
                reference_find(h, n),
                "haystack {:?} needle {:?}",
                h,
                n
            );
        }
    }
}

#[test]
fn case_insensitive_agrees_with_lowercased_reference_search() {
    let all = samples();
    for h in all.iter().filter(|s| s.len() >= 2) {
        for n in all.iter().filter(|s| !s.is_empty() && s.len() <= 3) {
            assert_eq!(
                vanity_keygen::matcher::matches(h, n, false),
                reference_find(&lower(h), &lower(n)),
                "haystack {:?} needle {:?}",
                h,
                n
            );
        }
    }
}

#[test]
fn case_insensitive_needle_starting_without_case() {
    assert!(vanity_keygen::matcher::matches(b"ssh-ed25519 AAAA9xQ", b"9XQ", false));
    assert!(vanity_keygen::matcher::matches(b"ab+Cd", b"+c", false));
    assert!(!vanity_keygen::matcher::matches(b"ab+Cd", b"+d", false));
    assert!(vanity_keygen::matcher::matches(b"ab7", b"7", false));
    assert!(!vanity_keygen::matcher::matches(b"ab7", b"8", false));
}

#[test]
fn case_insensitive_single_byte_needle() {
    assert!(vanity_keygen::matcher::matches(b"xyZ", b"z", false));
    assert!(vanity_keygen::matcher::matches(b"xyz", b"Z", false));
    assert!(!vanity_keygen::matcher::matches(b"xyz", b"q", false));
}

#[test]
fn uppercase_needle_ignoring_case() {
    assert!(contains_bytes_ignore_case(b"fooBARbaz", b"Bar"));
    assert!(contains_bytes_ignore_case(b"foobarbaz", b"BAR"));
    assert!(!contains_bytes_ignore_case(b"foobabaz", b"BAR"));
}

#[test]
fn restart_after_failed_verification() {
    assert!(vanity_keygen::matcher::matches(b"aaab", b"aab", false));
    assert!(vanity_keygen::matcher::matches(b"aaab", b"aab", true));
    assert!(!vanity_keygen::matcher::matches(b"aaba", b"abb", false));
}

#[test]
fn empty_needle_always_matches() {
    for cs in [true, false] {
        assert!(vanity_keygen::matcher::matches(b"", b"", cs));
        assert!(vanity_keygen::matcher::matches(b"anything", b"", cs));
    }
}

#[test]
fn needle_longer_than_haystack_never_matches() {
    for cs in [true, false] {
        assert!(!vanity_keygen::matcher::matches(b"abc", b"abcd", cs));
        assert!(!vanity_keygen::matcher::matches(b"", b"a", cs));
        assert!(!vanity_keygen::matcher::matches(b"ABC", b"abcd", cs));
    }
}

#[test]
fn lowercase_of_each_byte() {
    assert_eq!(to_lowercase(b'A'), b'a');
    assert_eq!(to_lowercase(b'Z'), b'z');
    assert_eq!(to_lowercase(b'a'), b'a');
    assert_eq!(to_lowercase(b'@'), b'@');
    assert_eq!(to_lowercase(b'['), b'[');
    assert_eq!(to_lowercase(b'5'), b'5');
    assert_eq!(to_lowercase(200), 200);
}

#[test]
fn target_normalized_only_when_ignoring_case() {
    assert_eq!(normalize_target(b"AbC9+", true), b"AbC9+".to_vec());
    assert_eq!(normalize_target(b"AbC9+", false), b"abc9+".to_vec());
    assert_eq!(normalize_target(b"", false), Vec::<u8>::new());
}
