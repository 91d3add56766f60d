//! Fuzzing: how many runs are handed out to the workers, which scene and seed
//! each run gets, and what the harness reports of each result.

use vstd::prelude::*;

use std::sync::atomic::{AtomicU64, Ordering};
use std::sync::Arc;

use crate::text::{decimal, decimal_string, texts};

verus! {

/// What one claim does to the count of runs left: a run is granted while
/// any is left.
pub open spec fn claim_spec(n: u64) -> Option<u64> {
    if n > 0 {
        Some((n - 1) as u64)
    } else {
        None
    }
}

/// One claim on the count of runs left: the count less one, or `None` when
/// no run is left.
pub fn claim(n: u64) -> (r: Option<u64>)
    ensures
        r == claim_spec(n),
{
    n.checked_sub(1)
}

/// How many of `attempts` successive claims are granted, starting from `n`
/// runs left.
pub open spec fn granted(n: u64, attempts: nat) -> nat
    decreases attempts,
{
    if attempts == 0 {
        0
    } else {
        match claim_spec(n) {
            Some(m) => 1 + granted(m, (attempts - 1) as nat),
            None => granted(n, (attempts - 1) as nat),
        }
    }
}

/// Of any sequence of claims on a count that starts at `n`, however the
/// workers interleave them, exactly `min(n, attempts)` are granted: with
/// workers that stop at their first refusal, exactly `n` runs happen.
pub proof fn claims_exact(n: u64, attempts: nat)
    ensures
        attempts >= n ==> granted(n, attempts) == n,
        attempts < n ==> granted(n, attempts) == attempts,
    decreases attempts,
{
    if attempts > 0 {
        if n > 0 {
            claims_exact((n - 1) as u64, (attempts - 1) as nat);
        } else {
            claims_exact(n, (attempts - 1) as nat);
        }
    }
}

/// Relies on `AtomicU64::fetch_update`, which applies `claim` atomically; the
/// result depends on the other workers, so nothing is promised of it.
#[verifier::external_body]
fn fetch_claim(counter: &AtomicU64) -> bool {
    counter.fetch_update(Ordering::Relaxed, Ordering::Relaxed, claim).is_ok()
}

/// The count of runs left, shared by the workers.
#[derive(Clone)]
pub struct Work {
    counter: Arc<AtomicU64>,
}

impl Work {
    /// A count of `n` runs.
    pub fn new(n: u64) -> (r: Work) {
        Work { counter: Arc::new(AtomicU64::new(n)) }
    }

    /// Claims one run; false once none is left.
    pub fn take(&self) -> bool {
        fetch_claim(&self.counter)
    }
}

/// Relies on `rand::random_range`: a number drawn from `0..len`, which it
/// requires to be non-empty.
#[verifier::external_body]
fn random_index(len: usize) -> (r: usize)
    requires
        len > 0,
    ensures
        r < len,
{
    rand::random_range(0..len)
}

/// Relies on `rand::random::<u64>`: any `u64`.
#[verifier::external_body]
pub(crate) fn random_seed() -> u64 {
    rand::random()
}

/// The scene and the seed of one run.
pub struct RunPlan {
    pub scene: String,
    pub seed: u64,
}

/// Draws the scene of a run from `scenes`, and its seed.
pub fn plan_run(scenes: &Vec<String>) -> (r: RunPlan)
    requires
        scenes.len() > 0,
    ensures
        exists|i: int| 0 <= i < scenes.len() && r.scene@ == (#[trigger] scenes[i])@,
{
    let i = random_index(scenes.len());
    let scene = scenes[i].clone();
    let seed = random_seed();
    RunPlan { scene, seed }
}

/// The scenes to fuzz: the one asked for, or all of them.
pub fn fuzz_scenes(requested: Option<&str>, all: &Vec<String>) -> (r: Vec<String>)
    ensures
        requested matches Some(s) ==> r@.len() == 1 && r@[0]@ == s@,
        requested is None ==> r@ == all@,
{
    match requested {
        Some(s) => {
            let mut v: Vec<String> = Vec::new();
            v.push(String::from_str(s));
            v
        },
        None => all.clone(),
    }
}

/// The number of runs: the one asked for, else without end.
pub fn fuzz_runs(requested: Option<u64>) -> (r: u64)
    ensures
        r == match requested {
            Some(n) => n,
            None => u64::MAX,
        },
{
    match requested {
        Some(n) => n,
        None => u64::MAX,
    }
}

/// The result of one run, as the worker observed it.
pub struct RunOutcome {
    pub seed: u64,
    pub scene: String,
    /// The wall time of the run, as written for the user.
    pub duration: String,
    /// Whether the scene binary exited with success.
    pub success: bool,
    /// The exit status, as written for the user.
    pub status: String,
    pub stdout: String,
    pub stderr: String,
}

/// What the harness does with a result.
pub enum Verdict {
    /// The run succeeded: report it and go on.
    Ran { line: String },
    /// The run failed: print these lines and fail the command.
    Failed { lines: Vec<String> },
}

/// The report of a successful run.
pub open spec fn success_line(o: RunOutcome) -> Seq<char> {
    "ran scene "@ + o.scene@ + " in "@ + o.duration@
}

/// The report of a failed run: the scene and status, the seed that
/// reproduces it, and what it printed.
pub open spec fn failure_lines(o: RunOutcome) -> Seq<Seq<char>> {
    seq![
        "scene "@ + o.scene@ + " failed with status "@ + o.status@,
        "seed: "@ + decimal(o.seed as nat),
        Seq::empty(),
        "--- stdout ---"@,
        o.stdout@,
        Seq::empty(),
        "--- stderr ---"@,
        o.stderr@,
        Seq::empty(),
    ]
}

/// Decides on one result.
pub fn report(o: &RunOutcome) -> (r: Verdict)
    ensures
        o.success ==> (r matches Verdict::Ran { line } && line@ == success_line(*o)),
        !o.success ==> (r matches Verdict::Failed { lines } && texts(lines@) == failure_lines(*o)),
{
    if o.success {
        let line = String::from_str("ran scene ").concat(o.scene.as_str()).concat(" in ").concat(
            o.duration.as_str(),
        );
        Verdict::Ran { line }
    } else {
        let mut lines: Vec<String> = Vec::new();
        lines.push(
            String::from_str("scene ").concat(o.scene.as_str()).concat(
                " failed with status ",
            ).concat(o.status.as_str()),
        );
        lines.push(String::from_str("seed: ").concat(decimal_string(o.seed).as_str()));
        lines.push(String::new());
        lines.push(String::from_str("--- stdout ---"));
        lines.push(o.stdout.clone());
        lines.push(String::new());
        lines.push(String::from_str("--- stderr ---"));
        lines.push(o.stderr.clone());
        lines.push(String::new());
        proof {
            assert(texts(lines@) =~= failure_lines(*o));
        }
        Verdict::Failed { lines }
    }
}

/// The report of a failed run holds the seed that made it fail, in decimal.
pub proof fn failure_report_names_seed(o: RunOutcome)
    ensures
        !o.success ==> exists|i: int|
            0 <= i < failure_lines(o).len() && #[trigger] failure_lines(o)[i] == "seed: "@
                + decimal(o.seed as nat),
{
    assert(failure_lines(o)[1] == "seed: "@ + decimal(o.seed as nat));
}

} // verus!
