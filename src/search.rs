//! The search engine: single attempts, the worker loop with its batching and
//! cancellation checks, and the pool that runs workers in parallel.

use crate::matcher::{lemma_lower_idempotent, lower_seq, matches_spec, to_lowercase};
use crate::progress::{CancelFlag, Stats};
use rayon::iter::{IntoParallelIterator, ParallelIterator};
use vstd::prelude::*;
use vstd::utf8::encode_utf8;

verus! {

/// Attempts a worker makes between two publications to the shared counter.
pub const BATCH_SIZE: u64 = 1000;

/// Within a batch, the cancellation flag is read after every this many
/// attempts.
pub const CANCEL_CHECK_INTERVAL: u64 = 100;

/// A candidate that matched, with the attempt count reported for it.
#[derive(Debug)]
pub struct KeyResult<K> {
    pub private_key: K,
    pub ssh_pub_key: String,
    pub attempts: u64,
}

/// What one attempt came to.
#[derive(Debug)]
pub enum Attempt<K> {
    /// The candidate's text holds the target; `attempts` is left at zero.
    Match(KeyResult<K>),
    /// The candidate's text does not hold the target.
    NoMatch,
    /// The generator produced nothing.
    GenerationFailed,
}

/// How a search ended.
#[derive(Debug)]
pub enum SearchResult<K> {
    Found(KeyResult<K>),
    Cancelled,
}

/// A search that cannot start.
#[derive(Debug, Clone, Copy, PartialEq, Eq)]
pub enum ConfigError {
    EmptyTarget,
    NoWorkers,
}

/// The candidate came out of `generate` and its text matches `target`.
pub open spec fn is_generated_match<K, G: Fn() -> Option<(K, String)>>(
    generate: &G,
    k: KeyResult<K>,
    target: Seq<u8>,
    case_sensitive: bool,
) -> bool {
    generate.ensures((), Some((k.private_key, k.ssh_pub_key))) && matches_spec(
        encode_utf8(k.ssh_pub_key@),
        target,
        case_sensitive,
    )
}

/// The search target as every worker compares it: as given when the search
/// is case-sensitive, else lower-cased once up front.
pub fn normalize_target(target: &[u8], case_sensitive: bool) -> (r: Vec<u8>)
    ensures
        r@ == (if case_sensitive {
            target@
        } else {
            lower_seq(target@)
        }),
{
    let mut r: Vec<u8> = Vec::new();
    let mut i: usize = 0;
    while i < target.len()
        invariant
            i <= target@.len(),
            r@.len() == i,
            forall|j: int|
                0 <= j < i ==> #[trigger] r@[j] == (if case_sensitive {
                    target@[j]
                } else {
                    crate::matcher::lower_byte(target@[j])
                }),
        decreases target@.len() - i,
    {
        if case_sensitive {
            r.push(target[i]);
        } else {
            r.push(to_lowercase(target[i]));
        }
        i = i + 1;
    }
    if case_sensitive {
        assert(r@ =~= target@);
    } else {
        assert(r@ =~= lower_seq(target@));
    }
    r
}

/// One attempt: draw a candidate from `generate` and test its text against
/// `target`.
pub fn generate_and_check_key<K, G: Fn() -> Option<(K, String)>>(
    generate: &G,
    target: &[u8],
    case_sensitive: bool,
) -> (r: Attempt<K>)
    requires
        generate.requires(()),
    ensures
        match r {
            Attempt::Match(k) => is_generated_match(generate, k, target@, case_sensitive)
                && k.attempts == 0,
            Attempt::NoMatch => exists|c: (K, String)|
                generate.ensures((), Some(c)) && !matches_spec(
                    encode_utf8(c.1@),
                    target@,
                    case_sensitive,
                ),
            Attempt::GenerationFailed => generate.ensures((), None),
        },
{
    match generate() {
        Some((private_key, ssh_pub_key)) => {
            let found = crate::matcher::matches(ssh_pub_key.as_str().as_bytes(), target, case_sensitive);
            if found {
                Attempt::Match(KeyResult { private_key, ssh_pub_key, attempts: 0 })
            } else {
                proof {
                    let c = (private_key, ssh_pub_key);
                    assert(generate.ensures((), Some(c)));
                }
                Attempt::NoMatch
            }
        },
        None => Attempt::GenerationFailed,
    }
}

/// One worker: attempts in batches of `BATCH_SIZE` until a candidate matches,
/// the flag is raised, or the generator fails.
///
/// After each full batch the batch is added to `stats` and the flag is read;
/// within a batch the flag is read every `CANCEL_CHECK_INTERVAL` attempts, and
/// a batch cut short is not published. On a match the flag is raised and the
/// result carries the published total plus this worker's unpublished attempts,
/// the matching one included (held at `u64::MAX` should it not fit). A worker
/// also stops, with nothing, once its own
/// published attempts would no longer fit in a `u64`.
pub fn worker<K, G: Fn() -> Option<(K, String)>>(
    generate: &G,
    target: &[u8],
    case_sensitive: bool,
    stats: &Stats,
    found: &CancelFlag,
) -> (r: Option<KeyResult<K>>)
    requires
        generate.requires(()),
    ensures
        r matches Some(k) ==> is_generated_match(generate, k, target@, case_sensitive)
            && k.attempts >= 1,
{
    let mut published: u64 = 0;
    while !found.is_set()
        invariant
            generate.requires(()),
        decreases u64::MAX - published,
    {
        if published > u64::MAX - BATCH_SIZE {
            return None;
        }
        let mut attempts: u64 = 0;
        while attempts < BATCH_SIZE
            invariant
                attempts <= BATCH_SIZE,
                generate.requires(()),
            decreases BATCH_SIZE - attempts,
        {
            attempts = attempts + 1;
            match generate_and_check_key(generate, target, case_sensitive) {
                Attempt::Match(mut k) => {
                    k.attempts = stats.get_attempts().saturating_add(attempts);
                    found.set();
                    return Some(k);
                },
                Attempt::NoMatch => {},
                Attempt::GenerationFailed => {
                    return None;
                },
            }
            if attempts % CANCEL_CHECK_INTERVAL == 0 && found.is_set() {
                return None;
            }
        }
        stats.add(BATCH_SIZE);
        published = published + BATCH_SIZE;
    }
    None
}

/// Relies on rayon's ParallelIterator::find_map_any over `0..n`: runs `f` on
/// every index in parallel, stops early once one call returns `Some`, and
/// hands back one of the `Some` values, or `None` when every call returned
/// `None`.
#[verifier::external_body]
fn first_some<T: Send, F: Fn(usize) -> Option<T> + Sync + Send>(n: usize, f: F) -> (r: Option<T>)
    requires
        forall|i: usize| i < n ==> f.requires((i,)),
    ensures
        r matches Some(t) ==> exists|i: usize| i < n && f.ensures((i,), Some(t)),
        r is None ==> forall|i: usize| i < n ==> f.ensures((i,), None),
{
    (0..n).into_par_iter().find_map_any(f)
}

/// Runs a search with `worker_count` workers in parallel, all drawing from
/// `generate` and sharing `stats` and `found`.
///
/// An empty target or a pool of no workers is refused before any work starts.
/// Otherwise the first match that a worker reports wins, later ones are
/// dropped, and the flag is raised before returning; when every worker stops
/// without a match (the flag was raised from outside, or generation failed)
/// the search is cancelled.
pub fn run<K: Send, G: Fn() -> Option<(K, String)> + Sync>(
    worker_count: usize,
    target: &[u8],
    case_sensitive: bool,
    generate: &G,
    stats: &Stats,
    found: &CancelFlag,
) -> (r: Result<SearchResult<K>, ConfigError>)
    requires
        generate.requires(()),
    ensures
        target@.len() == 0 ==> r matches Err(ConfigError::EmptyTarget),
        target@.len() > 0 && worker_count == 0 ==> r matches Err(ConfigError::NoWorkers),
        target@.len() > 0 && worker_count > 0 ==> r is Ok,
        r matches Ok(SearchResult::Found(k)) ==> is_generated_match(
            generate,
            k,
            target@,
            case_sensitive,
        ) && k.attempts >= 1,
{
    if target.len() == 0 {
        return Err(ConfigError::EmptyTarget);
    }
    if worker_count == 0 {
        return Err(ConfigError::NoWorkers);
    }
    let prepared = normalize_target(target, case_sensitive);
    let pattern = prepared.as_slice();
    proof {
        lemma_lower_idempotent(target@);
        assert(case_sensitive ==> pattern@ == target@);
        assert(!case_sensitive ==> lower_seq(pattern@) == lower_seq(target@));
    }
    let search = |i: usize| -> (o: Option<KeyResult<K>>)
        requires
            generate.requires(()),
        ensures
            o matches Some(k) ==> is_generated_match(generate, k, pattern@, case_sensitive)
                && k.attempts >= 1,
        { worker(generate, pattern, case_sensitive, stats, found) };
    let winner = first_some(worker_count, search);
    found.set();
    match winner {
        Some(k) => Ok(SearchResult::Found(k)),
        None => Ok(SearchResult::Cancelled),
    }
}

} // verus!
