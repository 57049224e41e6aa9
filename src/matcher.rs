//! Substring matching over ASCII text, exact or with ASCII case folding.

use vstd::prelude::*;

verus! {

/// `n` stands in `h` starting at index `i`.
pub open spec fn occurs_at(h: Seq<u8>, n: Seq<u8>, i: int) -> bool {
    0 <= i && i + n.len() <= h.len() && h.subrange(i, i + n.len()) == n
}

/// `n` is a contiguous part of `h`.
pub open spec fn contains(h: Seq<u8>, n: Seq<u8>) -> bool {
    exists|i: int| occurs_at(h, n, i)
}

/// ASCII lower case of one byte: `A`..=`Z` become `a`..=`z`, all else is kept.
pub open spec fn lower_byte(b: u8) -> u8 {
    if 65 <= b && b <= 90 {
        (b + 32) as u8
    } else {
        b
    }
}

/// ASCII lower case of every byte of `s`.
pub open spec fn lower_seq(s: Seq<u8>) -> Seq<u8> {
    s.map_values(|b: u8| lower_byte(b))
}

/// What a search reports: exact containment, or containment once both sides
/// are lower-cased.
pub open spec fn matches_spec(h: Seq<u8>, n: Seq<u8>, case_sensitive: bool) -> bool {
    if case_sensitive {
        contains(h, n)
    } else {
        contains(lower_seq(h), lower_seq(n))
    }
}

/// Relies on memchr::memchr: the index of the first occurrence of `b` in
/// `haystack[start..]`, relative to `start`, or `None` when there is none.
#[verifier::external_body]
fn find_byte(b: u8, haystack: &[u8], start: usize) -> (r: Option<usize>)
    requires
        start <= haystack@.len(),
    ensures
        match r {
            Some(k) => start + k < haystack@.len() && haystack@[start + k] == b
                && forall|p: int| start <= p < start + k ==> haystack@[p] != b,
            None => forall|p: int| start <= p < haystack@.len() ==> haystack@[p] != b,
        },
{
    memchr::memchr(b, &haystack[start..])
}

/// Relies on memchr::memchr2: the index of the first byte of
/// `haystack[start..]` that equals `b1` or `b2`, relative to `start`.
#[verifier::external_body]
fn find_either_byte(b1: u8, b2: u8, haystack: &[u8], start: usize) -> (r: Option<usize>)
    requires
        start <= haystack@.len(),
    ensures
        match r {
            Some(k) => start + k < haystack@.len() && (haystack@[start + k] == b1
                || haystack@[start + k] == b2) && forall|p: int|
                start <= p < start + k ==> haystack@[p] != b1 && haystack@[p] != b2,
            None => forall|p: int|
                start <= p < haystack@.len() ==> haystack@[p] != b1 && haystack@[p] != b2,
        },
{
    memchr::memchr2(b1, b2, &haystack[start..])
}

/// Relies on memchr::memmem::find: the index of the first occurrence of
/// `needle` in `haystack`, or `None` when it does not occur.
#[verifier::external_body]
fn find_subslice(haystack: &[u8], needle: &[u8]) -> (r: Option<usize>)
    ensures
        match r {
            Some(i) => occurs_at(haystack@, needle@, i as int) && forall|p: int|
                0 <= p < i ==> !occurs_at(haystack@, needle@, p),
            None => !contains(haystack@, needle@),
        },
{
    memchr::memmem::find(haystack, needle)
}

/// ASCII lower case of one byte.
pub fn to_lowercase(b: u8) -> (r: u8)
    ensures
        r == lower_byte(b),
{
    if b >= 65 && b <= 90 {
        b + 32
    } else {
        b
    }
}

/// The upper-case partner of a lower-case ASCII letter; any other byte is kept.
fn to_uppercase(b: u8) -> (r: u8)
    ensures
        97 <= b <= 122 ==> r == b - 32,
        !(97 <= b <= 122) ==> r == b,
{
    if b >= 97 && b <= 122 {
        b - 32
    } else {
        b
    }
}


/// The empty pattern is found in every text, in either mode.
pub proof fn lemma_empty_needle_matches(h: Seq<u8>, case_sensitive: bool)
    ensures
        matches_spec(h, Seq::<u8>::empty(), case_sensitive),
{
    let e = Seq::<u8>::empty();
    assert(h.subrange(0, 0) =~= e);
    assert(occurs_at(h, e, 0));
    assert(lower_seq(e) =~= e);
    assert(lower_seq(h).subrange(0, 0) =~= e);
    assert(occurs_at(lower_seq(h), lower_seq(e), 0));
}

/// A pattern longer than the text is never found, in either mode.
pub proof fn lemma_long_needle_never_matches(h: Seq<u8>, n: Seq<u8>, case_sensitive: bool)
    requires
        n.len() > h.len(),
    ensures
        !matches_spec(h, n, case_sensitive),
{
    assert(lower_seq(h).len() == h.len());
    assert(lower_seq(n).len() == n.len());
}

/// Lower-casing twice is lower-casing once.
pub proof fn lemma_lower_idempotent(s: Seq<u8>)
    ensures
        lower_seq(lower_seq(s)) == lower_seq(s),
{
    assert(lower_seq(lower_seq(s)) =~= lower_seq(s));
}

/// Whether bytes `1..` of `needle` equal those of `haystack` from `at + 1` on,
/// up to ASCII case.
fn rest_matches(haystack: &[u8], needle: &[u8], at: usize) -> (r: bool)
    requires
        1 <= needle@.len(),
        at + needle@.len() <= haystack@.len(),
    ensures
        r == forall|q: int|
            1 <= q < needle@.len() ==> lower_byte(#[trigger] haystack@[at + q]) == lower_byte(
                needle@[q],
            ),
{
    let hl = haystack.len();
    let mut j: usize = 1;
    while j < needle.len()
        invariant
            1 <= j <= needle@.len(),
            hl == haystack@.len(),
            at + needle@.len() <= haystack@.len(),
            forall|q: int|
                1 <= q < j ==> lower_byte(#[trigger] haystack@[at + q]) == lower_byte(needle@[q]),
        decreases needle@.len() - j,
    {
        if to_lowercase(haystack[at + j]) != to_lowercase(needle[j]) {
            assert(lower_byte(haystack@[at + j as int]) != lower_byte(needle@[j as int]));
            return false;
        }
        j = j + 1;
    }
    true
}

/// Whether `needle` occurs in `haystack` once both are ASCII lower-cased.
///
/// Candidate starts are found by the pattern's first byte in either case; the
/// other bytes are then compared one by one, case-folded, and the scan goes on
/// one byte further when they differ. Nothing is allocated.
pub fn contains_bytes_ignore_case(haystack: &[u8], needle: &[u8]) -> (r: bool)
    ensures
        r == contains(lower_seq(haystack@), lower_seq(needle@)),
{
    let ghost lh = lower_seq(haystack@);
    let ghost ln = lower_seq(needle@);
    if needle.len() == 0 {
        proof {
            lemma_empty_needle_matches(haystack@, false);
            assert(needle@ =~= Seq::<u8>::empty());
        }
        return true;
    }
    if needle.len() > haystack.len() {
        proof {
            lemma_long_needle_never_matches(haystack@, needle@, false);
        }
        return false;
    }
    let first = to_lowercase(needle[0]);
    let first_upper = to_uppercase(first);
    let last_start = haystack.len() - needle.len();
    let hl = haystack.len();
    let mut start: usize = 0;
    while start <= last_start
        invariant
            hl == haystack@.len(),
            0 < needle@.len() <= haystack@.len(),
            last_start == haystack@.len() - needle@.len(),
            lh == lower_seq(haystack@),
            ln == lower_seq(needle@),
            first == lower_byte(needle@[0]),
            97 <= first <= 122 ==> first_upper == first - 32,
            !(97 <= first <= 122) ==> first_upper == first,
            start <= last_start + 1,
            forall|p: int| 0 <= p < start ==> !occurs_at(lh, ln, p),
        decreases last_start + 1 - start,
    {
        let pos = if first != first_upper {
            find_either_byte(first, first_upper, haystack, start)
        } else {
            find_byte(first, haystack, start)
        };
        proof {
            // A position whose byte folds to something else cannot start a match.
            assert forall|p: int|
                0 <= p < haystack@.len() && lower_byte(haystack@[p]) != first implies !occurs_at(
                lh,
                ln,
                p,
            ) by {
                if occurs_at(lh, ln, p) {
                    assert(lh.subrange(p, p + ln.len())[0] == ln[0]);
                }
            }
        }
        match pos {
            Some(offset) => {
                let at = start + offset;
                if at > last_start {
                    proof {
                        assert forall|p: int| !occurs_at(lh, ln, p) by {
                            if start <= p < at {
                                assert(lower_byte(haystack@[p]) != first);
                            }
                        }
                    }
                    return false;
                }
                if rest_matches(haystack, needle, at) {
                    proof {
                        assert(lower_byte(haystack@[at as int]) == first);
                        assert forall|q: int| 0 <= q < ln.len() implies lh.subrange(
                            at as int,
                            at + ln.len(),
                        )[q] == ln[q] by {
                            if q > 0 {
                                assert(lower_byte(haystack@[at + q]) == lower_byte(needle@[q]));
                            }
                        }
                        assert(lh.subrange(at as int, at + ln.len()) =~= ln);
                        assert(occurs_at(lh, ln, at as int));
                    }
                    return true;
                }
                proof {
                    assert forall|p: int| 0 <= p < at + 1 implies !occurs_at(lh, ln, p) by {
                        if start <= p < at {
                            assert(lower_byte(haystack@[p]) != first);
                        }
                        if p == at {
                            let q = choose|q: int|
                                1 <= q < needle@.len() && lower_byte(#[trigger] haystack@[at + q])
                                    != lower_byte(needle@[q]);
                            if occurs_at(lh, ln, p) {
                                assert(lh.subrange(p, p + ln.len())[q] == ln[q]);
                            }
                        }
                    }
                }
                start = at + 1;
            },
            None => {
                proof {
                    assert forall|p: int| !occurs_at(lh, ln, p) by {
                        if start <= p < haystack@.len() {
                            assert(lower_byte(haystack@[p]) != first);
                        }
                    }
                }
                return false;
            },
        }
    }
    false
}

/// Whether `needle` occurs in `haystack`: byte for byte when `case_sensitive`,
/// else up to ASCII case. The empty pattern occurs everywhere; a pattern
/// longer than the text is refused before any scan.
pub fn matches(haystack: &[u8], needle: &[u8], case_sensitive: bool) -> (r: bool)
    ensures
        r == matches_spec(haystack@, needle@, case_sensitive),
{
    if needle.len() > haystack.len() {
        proof {
            lemma_long_needle_never_matches(haystack@, needle@, case_sensitive);
        }
        return false;
    }
    if case_sensitive {
        find_subslice(haystack, needle).is_some()
    } else {
        contains_bytes_ignore_case(haystack, needle)
    }
}

} // verus!
