//! Settings of one search and where its keys are stored.

use vstd::prelude::*;

verus! {

/// Workers started for each available CPU by default.
pub const WORKERS_PER_CPU: usize = 3;

/// Settings of one search and where its keys are stored.
#[derive(Debug, Clone)]
pub struct Config {
    pub target: String,
    pub case_sensitive: bool,
    pub num_threads: usize,
    pub private_key_file: String,
    pub public_key_file: String,
}

/// Workers for `cpus` available CPUs: `WORKERS_PER_CPU` each, or `usize::MAX`
/// when that many do not fit.
pub open spec fn workers_for_spec(cpus: usize) -> usize {
    if cpus <= usize::MAX / WORKERS_PER_CPU {
        (cpus * WORKERS_PER_CPU) as usize
    } else {
        usize::MAX
    }
}

/// The default worker count for `cpus` available CPUs.
pub fn workers_for(cpus: usize) -> (r: usize)
    ensures
        r == workers_for_spec(cpus),
{
    if cpus <= usize::MAX / WORKERS_PER_CPU {
        cpus * WORKERS_PER_CPU
    } else {
        usize::MAX
    }
}

/// Relies on num_cpus::get: the CPUs this process may use, which the crate
/// documents to be at least 1.
#[verifier::external_body]
fn available_cpus() -> (r: usize)
    ensures
        r >= 1,
{
    num_cpus::get()
}

impl Default for Config {
    /// No target yet, case-sensitive, `WORKERS_PER_CPU` workers per available
    /// CPU (as many as fit in a `usize`), keys stored as `id_ed25519` and
    /// `id_ed25519.pub`.
    fn default() -> (r: Self)
        ensures
            r.target@.len() == 0,
            r.case_sensitive,
            exists|cpus: usize| cpus >= 1 && r.num_threads == workers_for_spec(cpus),
            r.private_key_file@ == "id_ed25519"@,
            r.public_key_file@ == "id_ed25519.pub"@,
    {
        let cpus = available_cpus();
        let num_threads = workers_for(cpus);
        Config {
            target: String::new(),
            case_sensitive: true,
            num_threads,
            private_key_file: "id_ed25519".to_owned(),
            public_key_file: "id_ed25519.pub".to_owned(),
        }
    }
}

} // verus!
