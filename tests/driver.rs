use snowglobe::context::{Config, Context, SimTime};
use snowglobe::driver::{
    info, resolve, run, scene_name, scene_names, sim_settings, text_less, DriverError, SceneEntry,
    SceneTimings,
};
use snowglobe::proto::Info;

fn entry(module: &str, name: &str) -> SceneEntry {
    SceneEntry { module: module.to_string(), name: name.to_string() }
}

fn registry() -> Vec<SceneEntry> {
    vec![
        entry("scenes::determinism", "tokio_time"),
        entry("scenes::containment", "thread_spawn"),
        entry("scenes::determinism", "random_numbers"),
        entry("main", "top"),
    ]
}

#[test]
fn scene_names_drop_the_crate_prefix() {
    assert_eq!(scene_name("scenes::determinism", "random_numbers"), "determinism::random_numbers");
    assert_eq!(scene_name("scenes", "random_numbers"), "random_numbers");
    assert_eq!(scene_name("a::b::c", "f"), "b::c::f");
    assert_eq!(scene_name("a:b", "f"), "f");
    assert_eq!(scene_name("", "f"), "f");
}

#[test]
fn string_order_matches_str() {
    let words = ["", "a", "ab", "b", "B", "é", "aa", "a:"];
    for x in words {
        for y in words {
            assert_eq!(text_less(x, y), x < y, "{x:?} < {y:?}");
        }
    }
}

#[test]
fn listing_is_sorted_and_unique() {
    let mut entries = registry();
    entries.push(entry("scenes::determinism", "random_numbers"));
    assert_eq!(
        scene_names(&entries),
        vec![
            "containment::thread_spawn",
            "determinism::random_numbers",
            "determinism::tokio_time",
            "top",
        ]
    );
}

#[test]
fn info_message_lists_sorted_names() {
    let text = info(&registry());
    let decoded = Info::deserialize(text.as_bytes()).unwrap();
    assert_eq!(decoded.scenes, scene_names(&registry()));
}

#[test]
fn resolve_finds_the_last_entry_of_a_name() {
    let mut entries = registry();
    entries.push(entry("other::determinism", "random_numbers"));
    assert_eq!(resolve(&entries, "determinism::random_numbers"), Some(4));
    assert_eq!(resolve(&entries, "top"), Some(3));
    assert_eq!(resolve(&entries, "nope"), None);
}

#[test]
fn run_enters_the_context() {
    let mut ctx = Context::new();
    let r = run(&registry(), &mut ctx, "containment::thread_spawn", 9, Some(2_500));
    assert_eq!(r, Ok(1));
    assert_eq!(ctx.now(), Some(SimTime { secs: 2, nanos: 500_000_000 }));
    let mut fresh = Context::new();
    assert_eq!(run(&registry(), &mut fresh, "missing", 9, None), Err(DriverError::UnknownScene));
    assert!(!fresh.present());
    assert_eq!(DriverError::UnknownScene.message(), "scene does not exist");
}

#[test]
fn settings_default_tick_is_one_millisecond() {
    let cfg = Config { rng_seed: 3, start_time: SimTime::from_millis(10) };
    let none = SceneTimings {
        simulation_duration: None,
        tick_duration: None,
        min_message_latency: None,
        max_message_latency: None,
    };
    let s = sim_settings(&cfg, &none);
    assert_eq!(s.tick_duration, SimTime { secs: 0, nanos: 1_000_000 });
    assert_eq!(s.epoch, SimTime { secs: 0, nanos: 10_000_000 });
    assert_eq!(s.rng_seed, 3);
    let some = SceneTimings { tick_duration: Some(SimTime { secs: 0, nanos: 5 }), ..none };
    assert_eq!(sim_settings(&cfg, &some).tick_duration, SimTime { secs: 0, nanos: 5 });
}
