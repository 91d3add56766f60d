//! The scene registry and the decisions of the scene binary's own command
//! line: how scenes are named, the sorted list that `info` reports, which
//! scene `run` resolves to, and the settings the simulation is built with.

use vstd::prelude::*;

use crate::context::{seeded_state, Config, Context, SimTime};
use crate::proto::{info_document, json_text, Info};
use crate::text::{same_text, texts};

verus! {

/// A scene as the registry collected it: the module path where it was
/// declared and its function's name.
pub struct SceneEntry {
    pub module: String,
    pub name: String,
}

/// Whether `s` holds the separator `::` at `i`.
pub open spec fn separator_at(s: Seq<char>, i: int) -> bool {
    0 <= i && i + 1 < s.len() && s[i] == ':' && s[i + 1] == ':'
}

/// The first separator at or after `k`.
pub open spec fn first_separator_from(s: Seq<char>, k: int) -> Option<int>
    decreases s.len() - k,
{
    if k < 0 || k + 1 >= s.len() {
        None
    } else if separator_at(s, k) {
        Some(k)
    } else {
        first_separator_from(s, k + 1)
    }
}

/// The name a scene is reported by: the module path after its first `::`,
/// then `::` and the function's name; the bare name where the module path
/// holds no `::`.
pub open spec fn scene_name_spec(module: Seq<char>, name: Seq<char>) -> Seq<char> {
    match first_separator_from(module, 0) {
        Some(i) => module.subrange(i + 2, module.len() as int) + "::"@ + name,
        None => name,
    }
}

/// The reported name of a scene.
pub fn scene_name(module: &str, name: &str) -> (r: String)
    ensures
        r@ == scene_name_spec(module@, name@),
{
    let len = module.unicode_len();
    let mut k: usize = 0;
    while len >= 2 && k <= len - 2
        invariant
            len == module@.len(),
            k <= len,
            len >= 2 ==> k <= len - 1,
            first_separator_from(module@, 0) == first_separator_from(module@, k as int),
        decreases len - k,
    {
        if module.get_char(k) == ':' && module.get_char(k + 1) == ':' {
            let path = module.substring_char(k + 2, len);
            return String::from_str(path).concat("::").concat(name);
        }
        k = k + 1;
    }
    String::from_str(name)
}

/// The reported name of a registry entry.
pub open spec fn full_name(e: SceneEntry) -> Seq<char> {
    scene_name_spec(e.module@, e.name@)
}

/// Whether `a` comes before `b` in the order of `str`: character by
/// character, a proper prefix first.
pub open spec fn text_lt(a: Seq<char>, b: Seq<char>) -> bool
    decreases a.len(),
{
    if a.len() == 0 {
        b.len() > 0
    } else if b.len() == 0 {
        false
    } else if a[0] != b[0] {
        (a[0] as int) < (b[0] as int)
    } else {
        text_lt(a.drop_first(), b.drop_first())
    }
}

proof fn lemma_lt_total(a: Seq<char>, b: Seq<char>)
    ensures
        a != b ==> text_lt(a, b) || text_lt(b, a),
        text_lt(a, b) ==> !text_lt(b, a),
    decreases a.len(),
{
    if a.len() > 0 && b.len() > 0 {
        lemma_lt_total(a.drop_first(), b.drop_first());
        if a[0] == b[0] && a != b {
            assert(a =~= seq![a[0]] + a.drop_first());
            assert(b =~= seq![b[0]] + b.drop_first());
            assert(a.drop_first() != b.drop_first());
        }

    } else if a.len() == 0 && b.len() == 0 {
        assert(a =~= b);
    }
}

proof fn lemma_lt_transitive(a: Seq<char>, b: Seq<char>, c: Seq<char>)
    requires
        text_lt(a, b),
        text_lt(b, c),
    ensures
        text_lt(a, c),
    decreases a.len(),
{
    if a.len() > 0 && b.len() > 0 && c.len() > 0 {
        if a[0] == b[0] && b[0] == c[0] {
            lemma_lt_transitive(a.drop_first(), b.drop_first(), c.drop_first());
        }
    }
}

/// Whether `a` comes before `b`, as `str`'s order has it.
pub fn text_less(a: &str, b: &str) -> (r: bool)
    ensures
        r == text_lt(a@, b@),
{
    let la = a.unicode_len();
    let lb = b.unicode_len();
    let mut i: usize = 0;
    assert(a@.skip(0) =~= a@);
    assert(b@.skip(0) =~= b@);
    while i < la && i < lb
        invariant
            la == a@.len(),
            lb == b@.len(),
            i <= la,
            i <= lb,
            text_lt(a@, b@) == text_lt(a@.skip(i as int), b@.skip(i as int)),
        decreases la - i,
    {
        let ca = a.get_char(i);
        let cb = b.get_char(i);
        proof {
            assert(a@.skip(i as int)[0] == ca);
            assert(b@.skip(i as int)[0] == cb);
            assert(a@.skip(i as int).drop_first() =~= a@.skip(i + 1));
            assert(b@.skip(i as int).drop_first() =~= b@.skip(i + 1));
        }
        if ca != cb {
            return ca < cb;
        }
        i = i + 1;
    }
    i < lb
}

/// Whether a list of names is in strictly rising order.
pub open spec fn strictly_sorted(v: Seq<Seq<char>>) -> bool {
    forall|i: int, j: int| 0 <= i < j < v.len() ==> text_lt(#[trigger] v[i], #[trigger] v[j])
}

/// The reported names of the first `upto` entries of a registry.
pub open spec fn registry_names(entries: Seq<SceneEntry>, upto: int) -> Set<Seq<char>> {
    Set::new(|n: Seq<char>| exists|j: int| 0 <= j < upto && n == full_name(#[trigger] entries[j]))
}

/// Whether `names` lists the reported names of the registry's scenes, each
/// once, in `str`'s order.
pub open spec fn listing_of(names: Seq<Seq<char>>, entries: Seq<SceneEntry>) -> bool {
    &&& strictly_sorted(names)
    &&& names.to_set() == registry_names(entries, entries.len() as int)
}

/// Adds `x` to a strictly sorted list of names, where it is not there yet.
fn insert_sorted(out: &mut Vec<String>, x: String)
    requires
        strictly_sorted(texts(old(out)@)),
    ensures
        strictly_sorted(texts(final(out)@)),
        texts(final(out)@).to_set() == texts(old(out)@).to_set().insert(x@),
{
    let ghost xs = x@;
    let ghost before = texts(out@);
    let mut k: usize = 0;
    while k < out.len() && text_less(out[k].as_str(), x.as_str())
        invariant
            k <= out.len(),
            before == texts(out@),
            xs == x@,
            forall|j: int| 0 <= j < k ==> text_lt(#[trigger] before[j], xs),
        decreases out.len() - k,
    {
        assert(before[k as int] == out@[k as int]@);
        k = k + 1;
    }
    if k < out.len() && same_text(out[k].as_str(), x.as_str()) {
        assert(before[k as int] == xs);
        assert(before.to_set().contains(xs));
        assert(before.to_set() =~= before.to_set().insert(xs));
        return;
    }
    proof {
        if k < out.len() {
            lemma_lt_total(before[k as int], xs);
        }
        assert forall|j: int| k <= j < before.len() implies text_lt(xs, #[trigger] before[j]) by {
            if j > k {
                lemma_lt_transitive(xs, before[k as int], before[j]);
            }
        }
    }
    out.insert(k, x);
    proof {
        let after = texts(out@);
        assert(after =~= before.insert(k as int, xs));
        assert forall|i: int, j: int| 0 <= i < j < after.len() implies text_lt(
            #[trigger] after[i],
            #[trigger] after[j],
        ) by {
            if j < k {
                assert(after[i] == before[i] && after[j] == before[j]);
            } else if j == k {
                assert(after[i] == before[i]);
            } else if i < k {
                assert(after[i] == before[i] && after[j] == before[j - 1]);
                if i < j - 1 {
                    assert(text_lt(before[i], before[j - 1]));
                }
            } else if i == k {
                assert(after[j] == before[j - 1]);
            } else {
                assert(after[i] == before[i - 1] && after[j] == before[j - 1]);
            }
        }
        assert forall|a: Seq<char>| #[trigger] after.contains(a) implies before.to_set().insert(
            xs,
        ).contains(a) by {
            let i = choose|i: int| 0 <= i < after.len() && after[i] == a;
            if i < k {
                assert(before[i] == a);
            } else if i > k {
                assert(before[i - 1] == a);
            }
        }
        assert forall|a: Seq<char>| before.to_set().insert(xs).contains(a) implies #[trigger] after.contains(
            a,
        ) by {
            if a == xs {
                assert(after[k as int] == a);
            } else {
                let j = choose|j: int| 0 <= j < before.len() && before[j] == a;
                if j < k {
                    assert(after[j] == a);
                } else {
                    assert(after[j + 1] == a);
                }
            }
        }
        assert(after.to_set() =~= before.to_set().insert(xs));
    }
}

proof fn lemma_registry_step(entries: Seq<SceneEntry>, e: int)
    requires
        0 <= e < entries.len(),
    ensures
        registry_names(entries, e + 1) == registry_names(entries, e).insert(full_name(entries[e])),
{
    assert(registry_names(entries, e + 1) =~= registry_names(entries, e).insert(
        full_name(entries[e]),
    ));
}

/// The reported names of the registry's scenes, sorted, each once.
pub fn scene_names(entries: &Vec<SceneEntry>) -> (r: Vec<String>)
    ensures
        listing_of(texts(r@), entries@),
{
    let mut out: Vec<String> = Vec::new();
    let mut e: usize = 0;
    assert(texts(out@).to_set() =~= registry_names(entries@, 0));
    while e < entries.len()
        invariant
            e <= entries.len(),
            strictly_sorted(texts(out@)),
            texts(out@).to_set() == registry_names(entries@, e as int),
        decreases entries.len() - e,
    {
        let x = scene_name(entries[e].module.as_str(), entries[e].name.as_str());
        proof {
            lemma_registry_step(entries@, e as int);
        }
        insert_sorted(&mut out, x);
        e = e + 1;
    }
    out
}

/// The `info` message of a registry: the sorted list of its scene names.
pub fn info(entries: &Vec<SceneEntry>) -> (r: String)
    ensures
        exists|names: Seq<Seq<char>>|
            listing_of(names, entries@) && r@ == json_text(#[trigger] info_document(names)),
{
    let info = Info { scenes: scene_names(entries) };
    let r = info.serialize();
    assert(listing_of(texts(info.scenes@), entries@));
    r
}

/// The entry that a name resolves to: of the entries reported under it, the
/// last, as a map keyed by name keeps the last.
pub fn resolve(entries: &Vec<SceneEntry>, scene: &str) -> (r: Option<usize>)
    ensures
        match r {
            Some(i) => i < entries.len() && full_name(entries@[i as int]) == scene@ && forall|j: int|
                i < j < entries.len() ==> full_name(#[trigger] entries@[j]) != scene@,
            None => forall|j: int|
                0 <= j < entries.len() ==> full_name(#[trigger] entries@[j]) != scene@,
        },
{
    let mut k: usize = entries.len();
    while k > 0
        invariant
            k <= entries.len(),
            forall|j: int| k <= j < entries.len() ==> full_name(#[trigger] entries@[j]) != scene@,
        decreases k,
    {
        let n = scene_name(entries[k - 1].module.as_str(), entries[k - 1].name.as_str());
        if same_text(n.as_str(), scene) {
            return Some(k - 1);
        }
        k = k - 1;
    }
    None
}

/// Why `run` did not start a scene.
#[derive(Clone, Copy, Debug, PartialEq, Eq, Structural)]
pub enum DriverError {
    UnknownScene,
}

impl DriverError {
    pub fn message(&self) -> (r: &'static str)
        ensures
            r@ == "scene does not exist"@,
    {
        "scene does not exist"
    }
}

/// The start time of a run: `start_time` milliseconds after the epoch, or
/// the epoch itself.
pub open spec fn start_of(start_time: Option<u64>) -> nat {
    match start_time {
        Some(ms) => ms as nat * 1_000_000,
        None => 0,
    }
}

/// `run`: resolves the scene by name and enters the simulation context with
/// the seed and start time. An unknown name leaves the context as it was.
pub fn run(
    entries: &Vec<SceneEntry>,
    ctx: &mut Context,
    scene: &str,
    rng_seed: u64,
    start_time: Option<u64>,
) -> (r: Result<usize, DriverError>)
    ensures
        match r {
            Ok(i) => i < entries.len() && full_name(entries@[i as int]) == scene@ && (forall|j: int|
                i < j < entries.len() ==> full_name(#[trigger] entries@[j]) != scene@)
                && final(ctx).wf() && final(ctx).is_present() && final(ctx).time().wf()
                && final(ctx).time().total() == start_of(start_time)
                && final(ctx).rng_state() == seeded_state(rng_seed),
            Err(e) => e == DriverError::UnknownScene && (forall|j: int|
                0 <= j < entries.len() ==> full_name(#[trigger] entries@[j]) != scene@)
                && *final(ctx) == *old(ctx),
        },
{
    match resolve(entries, scene) {
        Some(i) => {
            let start = match start_time {
                Some(ms) => SimTime::from_millis(ms),
                None => SimTime::zero(),
            };
            ctx.enter(rng_seed, start);
            Ok(i)
        },
        None => Err(DriverError::UnknownScene),
    }
}

/// The timing options a scene may set; absent ones take the simulator's
/// defaults.
#[derive(Clone, Copy, Debug)]
pub struct SceneTimings {
    pub simulation_duration: Option<SimTime>,
    pub tick_duration: Option<SimTime>,
    pub min_message_latency: Option<SimTime>,
    pub max_message_latency: Option<SimTime>,
}

/// What the simulator is built with.
#[derive(Clone, Copy, Debug)]
pub struct SimSettings {
    /// The epoch, as a span after the Unix epoch.
    pub epoch: SimTime,
    pub tick_duration: SimTime,
    pub rng_seed: u64,
    pub simulation_duration: Option<SimTime>,
    pub min_message_latency: Option<SimTime>,
    pub max_message_latency: Option<SimTime>,
}

/// The settings of a run: the epoch at the start time, a tick of one
/// millisecond unless the scene sets one, the run's seed, and the scene's
/// other timings.
pub fn sim_settings(cfg: &Config, timings: &SceneTimings) -> (r: SimSettings)
    ensures
        r.epoch == cfg.start_time,
        r.rng_seed == cfg.rng_seed,
        timings.tick_duration matches Some(t) ==> r.tick_duration == t,
        timings.tick_duration is None ==> r.tick_duration.total() == 1_000_000
            && r.tick_duration.wf(),
        r.simulation_duration == timings.simulation_duration,
        r.min_message_latency == timings.min_message_latency,
        r.max_message_latency == timings.max_message_latency,
{
    let tick = match timings.tick_duration {
        Some(t) => t,
        None => SimTime::from_millis(1),
    };
    SimSettings {
        epoch: cfg.start_time,
        tick_duration: tick,
        rng_seed: cfg.rng_seed,
        simulation_duration: timings.simulation_duration,
        min_message_latency: timings.min_message_latency,
        max_message_latency: timings.max_message_latency,
    }
}

} // verus!
