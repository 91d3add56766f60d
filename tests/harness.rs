use snowglobe::bundle::{BundleError, SceneBinary, SceneBundle};
use snowglobe::determinism::{compare_lines, first_mismatch, verdict};
use snowglobe::heap::{
    array_size, in_heap, layout, mapped_in_place, posix_memalign_request, range_taken,
    LayoutRequest, MemalignError, HEAP_BASE, HEAP_END, HEAP_SIZE,
};
use snowglobe::text::decimal_string;

const INFO: &[u8] = b"{\"scenes\":[\"a::x\",\"b\"],\"snowglobe_version\":\"1\"}";

#[test]
fn bundle_reads_info_output() {
    let bundle = SceneBundle::new("/bin/scenes".to_string(), true, INFO).ok().unwrap();
    assert_eq!(bundle.scenes(), &vec!["a::x".to_string(), "b".to_string()]);
    match SceneBundle::new("p".to_string(), false, INFO) {
        Err(e @ BundleError::InfoFailed) => assert_eq!(e.message(), "running scene bundle failed"),
        _ => panic!("expected a failed info"),
    }
    match SceneBundle::new("p".to_string(), true, b"{}") {
        Err(e @ BundleError::Info(_)) => {
            assert_eq!(e.message(), "parsing scene bundle info: json: missing field `snowglobe_version`")
        }
        _ => panic!("expected an info error"),
    }
}

#[test]
fn bundle_run_command() {
    let bundle = SceneBundle::new("/bin/scenes".to_string(), true, INFO).ok().unwrap();
    let cmd = bundle.run_command("a::x", 0, Some(1000), Some("trace"));
    assert_eq!(cmd.program, "/bin/scenes");
    assert_eq!(cmd.args, vec!["run", "a::x", "--rng-seed", "0", "--start-time", "1000"]);
    assert_eq!(cmd.env, Some(("RUST_LOG".to_string(), "trace".to_string())));
    let cmd = bundle.run_command("b", 123456789, None, None);
    assert_eq!(cmd.args, vec!["run", "b", "--rng-seed", "123456789"]);
    assert_eq!(cmd.env, None);
}

#[test]
fn binary_run_command_draws_a_seed_when_none_is_given() {
    let binary = SceneBinary::new("/bin/s".to_string(), true, INFO).ok().unwrap();
    assert_eq!(binary.scenes().len(), 2);
    let cmd = binary.run_command("b", Some(7), None);
    assert_eq!(cmd.args, vec!["run", "b", "--rng-seed", "7"]);
    let cmd = binary.run_command("b", None, Some(5));
    assert_eq!(cmd.args.len(), 6);
    assert!(cmd.args[3].parse::<u64>().is_ok());
}

#[test]
fn determinism_compare() {
    let a: Vec<String> = vec!["x".into(), "y".into(), "z".into()];
    let b: Vec<String> = vec!["x".into(), "Y".into(), "w".into()];
    assert_eq!(first_mismatch(&a, &b), Some(("y".to_string(), "Y".to_string())));
    let shorter: Vec<String> = vec!["x".into()];
    assert_eq!(first_mismatch(&a, &shorter), None);
    assert_eq!(compare_lines(&"s".to_string(), &"s".to_string()), None);
    assert_eq!(verdict(&None), Ok("determinism check successful".to_string()));
    assert_eq!(
        verdict(&Some(("1".to_string(), "2".to_string()))),
        Err(vec![
            "mismatch:\n\t1: 1\n\t2: 2".to_string(),
            "scene produced non-deterministic output".to_string()
        ])
    );
}

#[test]
fn heap_range_checks() {
    assert_eq!(HEAP_BASE, 0x1000_0000_0000);
    assert_eq!(HEAP_SIZE, 1 << 30);
    assert_eq!(HEAP_END, 0x1000_4000_0000);
    assert_eq!(
        snowglobe::heap::occupied_message(),
        "deterministic heap address range 0x100000000000..0x100040000000 already occupied"
    );
    assert!(mapped_in_place(0x1000_0000_0000));
    assert!(!mapped_in_place(0x7f00_0000_0000));
    assert!(range_taken(true, HEAP_END - 1));
    assert!(!range_taken(true, HEAP_END));
    assert!(!range_taken(false, 0));
    assert!(in_heap(HEAP_BASE, HEAP_SIZE));
    assert!(!in_heap(HEAP_BASE, HEAP_SIZE + 1));
    assert!(!in_heap(HEAP_BASE - 1, 1));
}

#[test]
fn allocation_requests() {
    assert_eq!(layout(24, 16), Some(LayoutRequest { size: 24, align: 16 }));
    assert_eq!(layout(24, 3), None);
    assert_eq!(layout(usize::MAX, 16), None);
    assert_eq!(array_size(3, 8), Some(24));
    assert_eq!(array_size(usize::MAX, 2), None);
    assert_eq!(posix_memalign_request(64, 10, 8), Ok(LayoutRequest { size: 10, align: 64 }));
    assert_eq!(posix_memalign_request(4, 10, 8), Err(MemalignError::InvalidAlignment));
    assert_eq!(posix_memalign_request(24, 10, 8), Err(MemalignError::InvalidAlignment));
}

#[test]
fn decimal_rendering() {
    assert_eq!(decimal_string(0), "0");
    assert_eq!(decimal_string(9), "9");
    assert_eq!(decimal_string(10), "10");
    assert_eq!(decimal_string(u64::MAX), "18446744073709551615");
}
