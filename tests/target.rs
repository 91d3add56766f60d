use snowglobe::target::{
    build_args, error_multiple_targets, error_no_target, select, ArtifactInfo, Kind, PackageInfo, SelectError,
    TargetArgs, TargetInfo,
};

fn target(name: &str, is_bin: bool, is_example: bool) -> TargetInfo {
    TargetInfo { name: name.to_string(), is_bin, is_example }
}

fn workspace() -> Vec<PackageInfo> {
    vec![
        PackageInfo {
            name: "app".to_string(),
            id: "app 0.1.0".to_string(),
            targets: vec![target("app", true, false), target("demo", false, true)],
        },
        PackageInfo {
            name: "scenes".to_string(),
            id: "scenes 0.1.0".to_string(),
            targets: vec![target("scenes", true, false), target("lib", false, false)],
        },
    ]
}

#[test]
fn kind_and_name_prefers_bin() {
    let args = TargetArgs { bin: Some("x".to_string()), example: None };
    assert_eq!(args.kind_and_name(), (Kind::Bin, Some("x")));
    let args = TargetArgs { bin: None, example: Some("y".to_string()) };
    assert_eq!(args.kind_and_name(), (Kind::Example, Some("y")));
    let args = TargetArgs { bin: None, example: None };
    assert_eq!(args.kind_and_name(), (Kind::Bin, None));
}

#[test]
fn select_single_bin_in_package() {
    let spec = select(&workspace(), Some("scenes"), Kind::Bin, None).ok().unwrap();
    assert_eq!(spec.name, "scenes");
    assert_eq!(spec.package.id, "scenes 0.1.0");
    assert_eq!(spec.describe(), "bin `scenes` in package `scenes`");
}

#[test]
fn select_example_by_name() {
    let spec = select(&workspace(), None, Kind::Example, Some("demo")).ok().unwrap();
    assert_eq!(spec.package.name, "app");
    assert_eq!(spec.kind, Kind::Example);
}

#[test]
fn select_reports_no_target() {
    match select(&workspace(), None, Kind::Example, Some("missing")) {
        Err(e @ SelectError::NoTarget { .. }) => {
            assert_eq!(e.message(), "no example target named `missing` found")
        }
        _ => panic!("expected no target"),
    }
    assert_eq!(error_no_target(Kind::Bin, None), "no bin target found");
}

#[test]
fn select_reports_multiple_targets() {
    match select(&workspace(), None, Kind::Bin, None) {
        Err(e @ SelectError::MultipleTargets { .. }) => {
            assert_eq!(
                e.message(),
                "multiple bin targets found:\n    bin `app` in package `app`\n    bin `scenes` in package `scenes`"
            );
        }
        _ => panic!("expected multiple targets"),
    }
    assert_eq!(error_multiple_targets(Kind::Bin, Some("x"), &vec![]), "multiple bin targets named `x` found:");
}

#[test]
fn artifact_matching() {
    let spec = select(&workspace(), Some("app"), Kind::Bin, None).ok().unwrap();
    let good = ArtifactInfo { package_id: "app 0.1.0".to_string(), target: target("app", true, false) };
    let other_pkg = ArtifactInfo { package_id: "scenes 0.1.0".to_string(), target: target("app", true, false) };
    let other_kind = ArtifactInfo { package_id: "app 0.1.0".to_string(), target: target("app", false, true) };
    assert!(spec.matches_artifact(&good));
    assert!(!spec.matches_artifact(&other_pkg));
    assert!(!spec.matches_artifact(&other_kind));
}

#[test]
fn build_arguments() {
    let spec = select(&workspace(), Some("app"), Kind::Example, None).ok().unwrap();
    assert_eq!(
        build_args(&spec, true),
        vec!["build", "--message-format", "json", "--release", "--package", "app", "--example", "demo"]
    );
    let spec = select(&workspace(), Some("scenes"), Kind::Bin, None).ok().unwrap();
    assert_eq!(
        build_args(&spec, false),
        vec!["build", "--message-format", "json", "--package", "scenes", "--bin", "scenes"]
    );
}
