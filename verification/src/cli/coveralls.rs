//! The options of the front end that sends coverage to a hosted report.

use vstd::prelude::*;
use vstd::string::*;
use crate::cli::coverage::{Plan, PlanView};
use crate::cli::flags::Flags;
use crate::coverage::{CoverageOptions, CoverageOptionsView};
use crate::error::{result_view, CliError, CliErrorView, ValidationError, ValidationErrorView};
use crate::process::copy_texts;

verus! {

/// What the command line of `cargo coveralls` asked for.
#[derive(Debug, PartialEq, Eq)]
pub struct Options {
    pub arg_args: Vec<String>,
    pub flag_version: bool,
    pub flag_features: Vec<String>,
    pub flag_all_features: bool,
    pub flag_jobs: Option<u32>,
    pub flag_manifest_path: Option<String>,
    pub flag_no_default_features: bool,
    pub flag_package: Vec<String>,
    pub flag_target: Option<String>,
    pub flag_lib: bool,
    pub flag_bin: Vec<String>,
    pub flag_bins: bool,
    pub flag_test: Vec<String>,
    pub flag_tests: bool,
    pub flag_bench: Vec<String>,
    pub flag_benches: bool,
    pub flag_all_targets: bool,
    pub flag_verbose: u32,
    pub flag_quiet: bool,
    pub flag_color: Option<String>,
    pub flag_release: bool,
    pub flag_no_fail_fast: bool,
    pub flag_frozen: bool,
    pub flag_locked: bool,
    pub flag_all: bool,
    pub flag_exclude: Vec<String>,
    pub flag_z: Vec<String>,
    pub flag_exclude_pattern: Option<String>,
    pub flag_kcov_build_location: String,
}

impl Options {
    /// The build tool's flags among the options.
    pub open spec fn flags(&self) -> Flags<'_> {
        Flags {
            features: &self.flag_features,
            all_features: self.flag_all_features,
            jobs: self.flag_jobs,
            manifest_path: &self.flag_manifest_path,
            no_default_features: self.flag_no_default_features,
            package: &self.flag_package,
            target: &self.flag_target,
            lib: self.flag_lib,
            bin: &self.flag_bin,
            bins: self.flag_bins,
            test: &self.flag_test,
            tests: self.flag_tests,
            bench: &self.flag_bench,
            benches: self.flag_benches,
            all_targets: self.flag_all_targets,
            verbose: self.flag_verbose,
            quiet: self.flag_quiet,
            color: &self.flag_color,
            release: self.flag_release,
            no_fail_fast: self.flag_no_fail_fast,
            frozen: self.flag_frozen,
            locked: self.flag_locked,
            all: self.flag_all,
            exclude: &self.flag_exclude,
            z: &self.flag_z,
        }
    }

    /// Writes the build tool's flags back as arguments for it.
    pub fn into_cargo_args(&self) -> (args: Vec<String>)
        ensures
            args.deep_view() == self.flags().arguments(),
    {
        let flags = Flags {
            features: &self.flag_features,
            all_features: self.flag_all_features,
            jobs: self.flag_jobs,
            manifest_path: &self.flag_manifest_path,
            no_default_features: self.flag_no_default_features,
            package: &self.flag_package,
            target: &self.flag_target,
            lib: self.flag_lib,
            bin: &self.flag_bin,
            bins: self.flag_bins,
            test: &self.flag_test,
            tests: self.flag_tests,
            bench: &self.flag_bench,
            benches: self.flag_benches,
            all_targets: self.flag_all_targets,
            verbose: self.flag_verbose,
            quiet: self.flag_quiet,
            color: &self.flag_color,
            release: self.flag_release,
            no_fail_fast: self.flag_no_fail_fast,
            frozen: self.flag_frozen,
            locked: self.flag_locked,
            all: self.flag_all,
            exclude: &self.flag_exclude,
            z: &self.flag_z,
        };
        flags.into_cargo_args()
    }

    /// The coverage run that the options ask for, once the
    /// instrumentation tool is at `kcov_path`. The merged report goes to
    /// `target/kcov` and on to the hosted report under `job_id`, the
    /// identifier of the job that the environment names.
    pub open spec fn coverage_options(&self, kcov_path: Seq<char>, job_id: Seq<char>) -> CoverageOptionsView {
        CoverageOptionsView {
            compile_opts: self.flags().arguments(),
            release: self.flag_release,
            manifest_path: self.flag_manifest_path.deep_view(),
            merge_dir: "target/kcov"@,
            merge_args: seq!["--coveralls-id"@, job_id],
            test_args: self.arg_args.deep_view(),
            exclude_pattern: self.flag_exclude_pattern.deep_view(),
            no_fail_fast: self.flag_no_fail_fast,
            kcov_path,
            verbose: self.flag_verbose > 0,
        }
    }

    /// Makes the options of the coverage run. `job_id` is what the
    /// variable `TRAVIS_JOB_ID` of the environment holds; without it
    /// there are none.
    pub fn into_coverage_options(&self, kcov_path: &str, job_id: Option<String>) -> (options: Result<
        CoverageOptions,
        CliError,
    >)
        ensures
            result_view(options) == match job_id {
                Some(id) => Ok(self.coverage_options(kcov_path@, id@)),
                None => Err(
                    CliErrorView::Validation(
                        ValidationErrorView::MissingVariable { name: "TRAVIS_JOB_ID"@ },
                    ),
                ),
            },
    {
        match job_id {
            Some(id) => {
                let mut merge_args: Vec<String> = Vec::new();
                merge_args.push("--coveralls-id".to_owned());
                merge_args.push(id);
                proof {
                    assert(merge_args.deep_view() =~= seq!["--coveralls-id"@, id@]);
                }
                Ok(
                    CoverageOptions {
                        compile_opts: self.into_cargo_args(),
                        release: self.flag_release,
                        manifest_path: self.flag_manifest_path.clone(),
                        merge_dir: "target/kcov".to_owned(),
                        merge_args,
                        test_args: copy_texts(&self.arg_args),
                        exclude_pattern: self.flag_exclude_pattern.clone(),
                        no_fail_fast: self.flag_no_fail_fast,
                        kcov_path: kcov_path.to_owned(),
                        verbose: self.flag_verbose > 0,
                    },
                )
            },
            None => Err(
                CliError::Validation(
                    ValidationError::MissingVariable { name: "TRAVIS_JOB_ID".to_owned() },
                ),
            ),
        }
    }

    /// Where the instrumentation tool is built if it is nowhere to be
    /// found; nowhere, where only the version is asked for.
    pub open spec fn build_location(&self) -> Option<Seq<char>> {
        if self.flag_version {
            None
        } else {
            Some(self.flag_kcov_build_location@)
        }
    }

    /// Says where the instrumentation tool is to be looked for before
    /// the plan is made, if it is needed at all.
    pub fn kcov_build_location(&self) -> (location: Option<String>)
        ensures
            location.deep_view() == self.build_location(),
    {
        if self.flag_version {
            None
        } else {
            Some(self.flag_kcov_build_location.clone())
        }
    }

    /// What the options ask for: the version goes before all else;
    /// otherwise coverage is collected with the instrumentation tool at
    /// `kcov_path` and sent on under `job_id`, what the variable
    /// `TRAVIS_JOB_ID` of the environment holds. Without that variable
    /// the validation fails.
    pub open spec fn planned(&self, kcov_path: Seq<char>, job_id: Option<Seq<char>>) -> Result<
        PlanView,
        CliErrorView,
    > {
        if self.flag_version {
            Ok(PlanView::Version)
        } else {
            match job_id {
                Some(id) => Ok(PlanView::Collect { options: self.coverage_options(kcov_path, id) }),
                None => Err(
                    CliErrorView::Validation(
                        ValidationErrorView::MissingVariable { name: "TRAVIS_JOB_ID"@ },
                    ),
                ),
            }
        }
    }

    /// Works out what the options ask for.
    pub fn plan(&self, kcov_path: &str, job_id: Option<String>) -> (plan: Result<Plan, CliError>)
        ensures
            result_view(plan) == self.planned(kcov_path@, job_id.deep_view()),
    {
        if self.flag_version {
            Ok(Plan::Version)
        } else {
            match self.into_coverage_options(kcov_path, job_id) {
                Ok(options) => Ok(Plan::Collect { options }),
                Err(error) => Err(error),
            }
        }
    }
}

} // verus!
