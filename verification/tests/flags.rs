use cargo_travis::cli::coverage::{Options as CoverageCli, Plan};
use cargo_travis::cli::coveralls::Options as CoverallsCli;
use cargo_travis::cli::flags::{push_all, push_each, push_optional, push_switch, push_verbosity};
use cargo_travis::coverage::CoverageOptions;
use cargo_travis::error::{CliError, ValidationError};

fn texts(items: &[&str]) -> Vec<String> {
    items.iter().map(|item| item.to_string()).collect()
}

fn bare_coveralls() -> CoverallsCli {
    CoverallsCli {
        arg_args: Vec::new(),
        flag_version: false,
        flag_features: Vec::new(),
        flag_all_features: false,
        flag_jobs: None,
        flag_manifest_path: None,
        flag_no_default_features: false,
        flag_package: Vec::new(),
        flag_target: None,
        flag_lib: false,
        flag_bin: Vec::new(),
        flag_bins: false,
        flag_test: Vec::new(),
        flag_tests: false,
        flag_bench: Vec::new(),
        flag_benches: false,
        flag_all_targets: false,
        flag_verbose: 0,
        flag_quiet: false,
        flag_color: None,
        flag_release: false,
        flag_no_fail_fast: false,
        flag_frozen: false,
        flag_locked: false,
        flag_all: false,
        flag_exclude: Vec::new(),
        flag_z: Vec::new(),
        flag_exclude_pattern: None,
        flag_kcov_build_location: "target".to_string(),
    }
}

fn full_coveralls() -> CoverallsCli {
    CoverallsCli {
        arg_args: texts(&["--nocapture"]),
        flag_version: false,
        flag_features: texts(&["serde", "std"]),
        flag_all_features: true,
        flag_jobs: Some(4),
        flag_manifest_path: Some("sub/Cargo.toml".to_string()),
        flag_no_default_features: true,
        flag_package: texts(&["one", "two"]),
        flag_target: Some("x86_64-unknown-linux-gnu".to_string()),
        flag_lib: true,
        flag_bin: texts(&["tool"]),
        flag_bins: true,
        flag_test: texts(&["integration"]),
        flag_tests: true,
        flag_bench: texts(&["speed"]),
        flag_benches: true,
        flag_all_targets: true,
        flag_verbose: 2,
        flag_quiet: true,
        flag_color: Some("always".to_string()),
        flag_release: true,
        flag_no_fail_fast: true,
        flag_frozen: true,
        flag_locked: true,
        flag_all: true,
        flag_exclude: texts(&["three"]),
        flag_z: texts(&["unstable-options", "avoid-dev-deps"]),
        flag_exclude_pattern: Some("/usr,tests".to_string()),
        flag_kcov_build_location: "target".to_string(),
    }
}

fn every_argument() -> Vec<String> {
    texts(&[
        "--features=serde",
        "--features=std",
        "--all-features",
        "--jobs=4",
        "--manifest-path=sub/Cargo.toml",
        "--no-default-features",
        "--package=one",
        "--package=two",
        "--target=x86_64-unknown-linux-gnu",
        "--lib",
        "--bin=tool",
        "--bins",
        "--test=integration",
        "--tests",
        "--bench=speed",
        "--benches",
        "--all-targets",
        "-vv",
        "--quiet",
        "--color=always",
        "--release",
        "--no-fail-fast",
        "--frozen",
        "--locked",
        "--all",
        "--exclude=three",
        "-Zunstable-options",
        "-Zavoid-dev-deps",
    ])
}

fn coverage_like(options: CoverallsCli, quiet: Option<bool>, merge_into: &str) -> CoverageCli {
    CoverageCli {
        arg_args: options.arg_args,
        flag_version: options.flag_version,
        flag_features: options.flag_features,
        flag_all_features: options.flag_all_features,
        flag_jobs: options.flag_jobs,
        flag_manifest_path: options.flag_manifest_path,
        flag_no_default_features: options.flag_no_default_features,
        flag_package: options.flag_package,
        flag_target: options.flag_target,
        flag_lib: options.flag_lib,
        flag_bin: options.flag_bin,
        flag_bins: options.flag_bins,
        flag_test: options.flag_test,
        flag_tests: options.flag_tests,
        flag_bench: options.flag_bench,
        flag_benches: options.flag_benches,
        flag_all_targets: options.flag_all_targets,
        flag_verbose: options.flag_verbose,
        flag_quiet: quiet,
        flag_color: options.flag_color,
        flag_release: options.flag_release,
        flag_no_fail_fast: options.flag_no_fail_fast,
        flag_frozen: options.flag_frozen,
        flag_locked: options.flag_locked,
        flag_all: options.flag_all,
        flag_exclude: options.flag_exclude,
        flag_z: options.flag_z,
        flag_exclude_pattern: options.flag_exclude_pattern,
        flag_merge_into: merge_into.to_string(),
        flag_kcov_build_location: options.flag_kcov_build_location,
    }
}

#[test]
fn no_flags_give_no_arguments() {
    assert_eq!(bare_coveralls().into_cargo_args(), Vec::<String>::new());
}

#[test]
fn every_flag_gives_its_argument_in_order() {
    assert_eq!(full_coveralls().into_cargo_args(), every_argument());
}

#[test]
fn flags_are_spelled_as_the_build_tool_spells_them() {
    let mut options = bare_coveralls();
    options.flag_no_default_features = true;
    options.flag_all_targets = true;
    assert_eq!(options.into_cargo_args(), texts(&["--no-default-features", "--all-targets"]));
    let mut options = bare_coveralls();
    options.flag_manifest_path = Some("a/Cargo.toml".to_string());
    options.flag_no_fail_fast = true;
    assert_eq!(
        options.into_cargo_args(),
        texts(&["--manifest-path=a/Cargo.toml", "--no-fail-fast"])
    );
}

#[test]
fn single_flags_give_single_arguments() {
    let mut options = bare_coveralls();
    options.flag_jobs = Some(16);
    assert_eq!(options.into_cargo_args(), texts(&["--jobs=16"]));
    let mut options = bare_coveralls();
    options.flag_verbose = 1;
    assert_eq!(options.into_cargo_args(), texts(&["-v"]));
    let mut options = bare_coveralls();
    options.flag_verbose = 5;
    options.flag_release = true;
    assert_eq!(options.into_cargo_args(), texts(&["-vvvvv", "--release"]));
    let mut options = bare_coveralls();
    options.flag_z = texts(&["a", "b"]);
    options.flag_lib = true;
    assert_eq!(options.into_cargo_args(), texts(&["--lib", "-Za", "-Zb"]));
}

#[test]
fn coverage_options_give_the_same_arguments() {
    let options = coverage_like(full_coveralls(), Some(true), "target/kcov");
    assert_eq!(options.into_cargo_args(), every_argument());
    assert_eq!(
        coverage_like(bare_coveralls(), None, "target/kcov").into_cargo_args(),
        Vec::<String>::new()
    );
}

#[test]
fn coverage_options_are_quiet_only_when_told() {
    let told = coverage_like(bare_coveralls(), Some(true), "out");
    assert_eq!(told.into_cargo_args(), texts(&["--quiet"]));
    let denied = coverage_like(bare_coveralls(), Some(false), "out");
    assert_eq!(denied.into_cargo_args(), Vec::<String>::new());
    let silent = coverage_like(bare_coveralls(), None, "out");
    assert_eq!(silent.into_cargo_args(), Vec::<String>::new());
}

#[test]
fn pushes_append_to_what_is_there() {
    let mut args = texts(&["first"]);
    push_each(&mut args, "--bin=", &texts(&["a", "b"]));
    push_switch(&mut args, true, "--lib");
    push_switch(&mut args, false, "--bins");
    push_optional(&mut args, "--color=", &Some("never".to_string()));
    push_optional(&mut args, "--target=", &None);
    push_verbosity(&mut args, 0);
    push_verbosity(&mut args, 3);
    push_all(&mut args, texts(&["x", "y"]));
    assert_eq!(
        args,
        texts(&["first", "--bin=a", "--bin=b", "--lib", "--color=never", "-vvv", "x", "y"])
    );
}

#[test]
fn coverage_options_take_the_flags_over() {
    let options = coverage_like(full_coveralls(), Some(true), "reports/merged");
    assert_eq!(
        options.into_coverage_options("/usr/bin/kcov"),
        CoverageOptions {
            compile_opts: every_argument(),
            release: true,
            manifest_path: Some("sub/Cargo.toml".to_string()),
            merge_dir: "reports/merged".to_string(),
            merge_args: Vec::new(),
            test_args: texts(&["--nocapture"]),
            exclude_pattern: Some("/usr,tests".to_string()),
            no_fail_fast: true,
            kcov_path: "/usr/bin/kcov".to_string(),
            verbose: true,
        }
    );
}

#[test]
fn coveralls_options_send_the_report_on_under_the_job() {
    let options = bare_coveralls().into_coverage_options("target/kcov-master/build/src/kcov", Some("42".to_string()));
    assert_eq!(
        options,
        Ok(CoverageOptions {
            compile_opts: Vec::new(),
            release: false,
            manifest_path: None,
            merge_dir: "target/kcov".to_string(),
            merge_args: texts(&["--coveralls-id", "42"]),
            test_args: Vec::new(),
            exclude_pattern: None,
            no_fail_fast: false,
            kcov_path: "target/kcov-master/build/src/kcov".to_string(),
            verbose: false,
        })
    );
}

#[test]
fn coveralls_options_need_the_job() {
    let error = full_coveralls().into_coverage_options("kcov", None).unwrap_err();
    assert_eq!(
        error,
        CliError::Validation(ValidationError::MissingVariable { name: "TRAVIS_JOB_ID".to_string() })
    );
    assert_eq!(error.code(), 1);
    assert_eq!(error.message(), "$TRAVIS_JOB_ID not set");
}

#[test]
fn the_version_goes_before_the_coverage() {
    let mut asked = coverage_like(full_coveralls(), None, "out");
    asked.flag_version = true;
    assert_eq!(asked.kcov_build_location(), None);
    assert_eq!(asked.plan(""), Ok(Plan::Version));
    assert_eq!(asked.plan("/usr/bin/kcov"), Ok(Plan::Version));
    let mut asked = full_coveralls();
    asked.flag_version = true;
    assert_eq!(asked.kcov_build_location(), None);
    assert_eq!(asked.plan("", None), Ok(Plan::Version));
    assert_eq!(asked.plan("kcov", Some("42".to_string())), Ok(Plan::Version));
}

#[test]
fn without_a_version_request_coverage_is_collected() {
    let options = coverage_like(bare_coveralls(), None, "reports");
    assert_eq!(options.kcov_build_location(), Some("target".to_string()));
    assert_eq!(
        options.plan("/usr/bin/kcov"),
        Ok(Plan::Collect { options: options.into_coverage_options("/usr/bin/kcov") })
    );
    let options = bare_coveralls();
    assert_eq!(options.kcov_build_location(), Some("target".to_string()));
    assert_eq!(
        options.plan("kcov", Some("42".to_string())),
        Ok(Plan::Collect {
            options: options.into_coverage_options("kcov", Some("42".to_string())).unwrap()
        })
    );
}

#[test]
fn the_coveralls_plan_needs_the_job() {
    assert_eq!(
        bare_coveralls().plan("kcov", None),
        Err(CliError::Validation(ValidationError::MissingVariable {
            name: "TRAVIS_JOB_ID".to_string()
        }))
    );
}
