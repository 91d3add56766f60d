use snowglobe::fuzz::{claim, fuzz_runs, fuzz_scenes, plan_run, report, RunOutcome, Verdict, Work};

#[test]
fn claim_counts_down_and_stops() {
    assert_eq!(claim(3), Some(2));
    assert_eq!(claim(1), Some(0));
    assert_eq!(claim(0), None);
}

#[test]
fn work_hands_out_exactly_n_runs_across_workers() {
    let work = Work::new(4);
    let workers = [work.clone(), work.clone(), work.clone()];
    let mut total = 0;
    let mut refused = [false; 3];
    while refused.iter().any(|r| !r) {
        for (i, w) in workers.iter().enumerate() {
            if !refused[i] {
                if w.take() {
                    total += 1;
                } else {
                    refused[i] = true;
                }
            }
        }
    }
    assert_eq!(total, 4);
    assert!(!work.take());
}

#[test]
fn plan_run_picks_a_listed_scene() {
    let scenes = vec!["a".to_string(), "b".to_string(), "c".to_string()];
    for _ in 0..20 {
        let plan = plan_run(&scenes);
        assert!(scenes.contains(&plan.scene));
    }
    let one = vec!["only".to_string()];
    assert_eq!(plan_run(&one).scene, "only");
}

#[test]
fn fuzz_defaults() {
    let all = vec!["a".to_string(), "b".to_string()];
    assert_eq!(fuzz_scenes(Some("random_numbers"), &all), vec!["random_numbers".to_string()]);
    assert_eq!(fuzz_scenes(None, &all), all);
    assert_eq!(fuzz_runs(Some(4)), 4);
    assert_eq!(fuzz_runs(None), u64::MAX);
}

fn outcome(success: bool) -> RunOutcome {
    RunOutcome {
        seed: 18446744073709551615,
        scene: "fails::always".to_string(),
        duration: "12ms".to_string(),
        success,
        status: "exit status: 101".to_string(),
        stdout: "out".to_string(),
        stderr: "err".to_string(),
    }
}

#[test]
fn success_is_reported_and_fuzzing_goes_on() {
    match report(&outcome(true)) {
        Verdict::Ran { line } => assert_eq!(line, "ran scene fails::always in 12ms"),
        Verdict::Failed { .. } => panic!("expected success"),
    }
}

#[test]
fn failure_report_holds_the_seed() {
    match report(&outcome(false)) {
        Verdict::Failed { lines } => {
            assert_eq!(
                lines,
                vec![
                    "scene fails::always failed with status exit status: 101",
                    "seed: 18446744073709551615",
                    "",
                    "--- stdout ---",
                    "out",
                    "",
                    "--- stderr ---",
                    "err",
                    "",
                ]
            );
        }
        Verdict::Ran { .. } => panic!("expected failure"),
    }
}
