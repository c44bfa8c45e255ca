//! The flags that the front ends share with the build tool, and how they
//! are written back as arguments for it.

use vstd::prelude::*;
use vstd::string::*;
use crate::text::{glue, decimal, decimal_text, repeat, repeated};

verus! {

/// One argument for each of `values`: `prefix` followed by the value.
pub open spec fn each(prefix: Seq<char>, values: Seq<Seq<char>>) -> Seq<Seq<char>> {
    Seq::new(values.len(), |i: int| prefix + values[i])
}

/// The argument `flag` when `on`, nothing otherwise.
pub open spec fn switch(on: bool, flag: Seq<char>) -> Seq<Seq<char>> {
    if on {
        seq![flag]
    } else {
        Seq::empty()
    }
}

/// The argument `prefix` followed by the value, when there is a value.
pub open spec fn optional(prefix: Seq<char>, value: Option<Seq<char>>) -> Seq<Seq<char>> {
    match value {
        Some(text) => seq![prefix + text],
        None => Seq::empty(),
    }
}

/// `-v`, `-vv`, ... for a verbosity above zero, nothing for zero.
pub open spec fn verbosity(level: u32) -> Seq<Seq<char>> {
    if level != 0 {
        seq!["-"@ + repeated("v"@, level as nat)]
    } else {
        Seq::empty()
    }
}

/// The decimal form of a number of jobs, when one was given.
pub open spec fn jobs_text(jobs: Option<u32>) -> Option<Seq<char>> {
    match jobs {
        Some(n) => Some(decimal(n as nat)),
        None => None,
    }
}

/// The build tool's flags, borrowed from the options of a front end.
pub struct Flags<'a> {
    pub features: &'a Vec<String>,
    pub all_features: bool,
    pub jobs: Option<u32>,
    pub manifest_path: &'a Option<String>,
    pub no_default_features: bool,
    pub package: &'a Vec<String>,
    pub target: &'a Option<String>,
    pub lib: bool,
    pub bin: &'a Vec<String>,
    pub bins: bool,
    pub test: &'a Vec<String>,
    pub tests: bool,
    pub bench: &'a Vec<String>,
    pub benches: bool,
    pub all_targets: bool,
    pub verbose: u32,
    pub quiet: bool,
    pub color: &'a Option<String>,
    pub release: bool,
    pub no_fail_fast: bool,
    pub frozen: bool,
    pub locked: bool,
    pub all: bool,
    pub exclude: &'a Vec<String>,
    pub z: &'a Vec<String>,
}

impl<'a> Flags<'a> {
    /// The arguments that say what is built: features, jobs, manifest,
    /// packages and target platform.
    pub open spec fn build_arguments(&self) -> Seq<Seq<char>> {
        each("--features="@, self.features.deep_view())
            + switch(self.all_features, "--all-features"@)
            + optional("--jobs="@, jobs_text(self.jobs))
            + optional("--manifest-path="@, self.manifest_path.deep_view())
            + switch(self.no_default_features, "--no-default-features"@)
            + each("--package="@, self.package.deep_view())
            + optional("--target="@, self.target.deep_view())
    }

    /// The arguments that select targets.
    pub open spec fn target_arguments(&self) -> Seq<Seq<char>> {
        switch(self.lib, "--lib"@)
            + each("--bin="@, self.bin.deep_view())
            + switch(self.bins, "--bins"@)
            + each("--test="@, self.test.deep_view())
            + switch(self.tests, "--tests"@)
            + each("--bench="@, self.bench.deep_view())
            + switch(self.benches, "--benches"@)
            + switch(self.all_targets, "--all-targets"@)
    }

    /// The arguments on output and on how the run goes.
    pub open spec fn run_arguments(&self) -> Seq<Seq<char>> {
        verbosity(self.verbose)
            + switch(self.quiet, "--quiet"@)
            + optional("--color="@, self.color.deep_view())
            + switch(self.release, "--release"@)
            + switch(self.no_fail_fast, "--no-fail-fast"@)
    }

    /// The arguments on the lock file, the workspace and the build
    /// tool's unstable flags.
    pub open spec fn workspace_arguments(&self) -> Seq<Seq<char>> {
        switch(self.frozen, "--frozen"@)
            + switch(self.locked, "--locked"@)
            + switch(self.all, "--all"@)
            + each("--exclude="@, self.exclude.deep_view())
            + each("-Z"@, self.z.deep_view())
    }

    /// The arguments that stand for the flags, in a fixed order: each
    /// flag that is set, each value of a repeated flag in the order given.
    pub open spec fn arguments(&self) -> Seq<Seq<char>> {
        self.build_arguments() + self.target_arguments() + self.run_arguments()
            + self.workspace_arguments()
    }

    fn build_args(&self) -> (args: Vec<String>)
        ensures
            args.deep_view() == self.build_arguments(),
    {
        let mut args: Vec<String> = Vec::new();
        proof {
            assert(args.deep_view() =~= Seq::<Seq<char>>::empty());
        }
        push_each(&mut args, "--features=", self.features);
        proof {
            assert(args.deep_view() =~= each("--features="@, self.features.deep_view()));
        }
        push_switch(&mut args, self.all_features, "--all-features");
        let jobs = match self.jobs {
            Some(n) => Some(decimal_text(n as u64)),
            None => None,
        };
        proof {
            assert(jobs.deep_view() == jobs_text(self.jobs));
        }
        push_optional(&mut args, "--jobs=", &jobs);
        push_optional(&mut args, "--manifest-path=", self.manifest_path);
        push_switch(&mut args, self.no_default_features, "--no-default-features");
        push_each(&mut args, "--package=", self.package);
        push_optional(&mut args, "--target=", self.target);
        args
    }

    fn push_target_args(&self, args: &mut Vec<String>)
        ensures
            final(args).deep_view() == old(args).deep_view() + self.target_arguments(),
    {
        let mut part: Vec<String> = Vec::new();
        proof {
            assert(part.deep_view() =~= Seq::<Seq<char>>::empty());
        }
        push_switch(&mut part, self.lib, "--lib");
        proof {
            assert(part.deep_view() =~= switch(self.lib, "--lib"@));
        }
        push_each(&mut part, "--bin=", self.bin);
        push_switch(&mut part, self.bins, "--bins");
        push_each(&mut part, "--test=", self.test);
        push_switch(&mut part, self.tests, "--tests");
        push_each(&mut part, "--bench=", self.bench);
        push_switch(&mut part, self.benches, "--benches");
        push_switch(&mut part, self.all_targets, "--all-targets");
        push_all(args, part);
    }

    fn push_run_args(&self, args: &mut Vec<String>)
        ensures
            final(args).deep_view() == old(args).deep_view() + self.run_arguments(),
    {
        let mut part: Vec<String> = Vec::new();
        proof {
            assert(part.deep_view() =~= Seq::<Seq<char>>::empty());
        }
        push_verbosity(&mut part, self.verbose);
        proof {
            assert(part.deep_view() =~= verbosity(self.verbose));
        }
        push_switch(&mut part, self.quiet, "--quiet");
        push_optional(&mut part, "--color=", self.color);
        push_switch(&mut part, self.release, "--release");
        push_switch(&mut part, self.no_fail_fast, "--no-fail-fast");
        push_all(args, part);
    }

    fn push_workspace_args(&self, args: &mut Vec<String>)
        ensures
            final(args).deep_view() == old(args).deep_view() + self.workspace_arguments(),
    {
        let mut part: Vec<String> = Vec::new();
        proof {
            assert(part.deep_view() =~= Seq::<Seq<char>>::empty());
        }
        push_switch(&mut part, self.frozen, "--frozen");
        proof {
            assert(part.deep_view() =~= switch(self.frozen, "--frozen"@));
        }
        push_switch(&mut part, self.locked, "--locked");
        push_switch(&mut part, self.all, "--all");
        push_each(&mut part, "--exclude=", self.exclude);
        push_each(&mut part, "-Z", self.z);
        push_all(args, part);
    }

    /// Writes the flags as arguments for the build tool.
    pub fn into_cargo_args(&self) -> (args: Vec<String>)
        ensures
            args.deep_view() == self.arguments(),
    {
        let mut args = self.build_args();
        self.push_target_args(&mut args);
        self.push_run_args(&mut args);
        self.push_workspace_args(&mut args);
        args
    }
}

/// Moves every element of `more` to the end of `args`.
pub fn push_all(args: &mut Vec<String>, more: Vec<String>)
    ensures
        final(args).deep_view() == old(args).deep_view() + more.deep_view(),
{
    let mut more = more;
    let ghost first = args@;
    let ghost second = more@;
    args.append(&mut more);
    proof {
        assert(args@ =~= first + second);
        assert(args.deep_view() =~= old(args).deep_view() + second.map_values(|s: String| s@));
        assert(second.map_values(|s: String| s@) =~= Seq::new(second.len(), |i: int| second[i].deep_view()));
    }
}

/// Appends `prefix` + value for each of `values`.
pub fn push_each(args: &mut Vec<String>, prefix: &str, values: &Vec<String>)
    ensures
        final(args).deep_view() == old(args).deep_view() + each(prefix@, values.deep_view()),
{
    let mut i: usize = 0;
    proof {
        assert(args.deep_view() =~= old(args).deep_view() + each(
            prefix@,
            values.deep_view().take(0),
        ));
    }
    while i < values.len()
        invariant
            i <= values.len(),
            args.deep_view() == old(args).deep_view() + each(
                prefix@,
                values.deep_view().take(i as int),
            ),
        decreases values.len() - i,
    {
        let ghost before = args.deep_view();
        args.push(glue(prefix, values[i].as_str()));
        proof {
                assert(args.deep_view() =~= before.push(prefix@ + values[i as int]@));
            assert(args.deep_view() =~= old(args).deep_view() + each(
                prefix@,
                values.deep_view().take(i + 1),
            ));
        }
        i = i + 1;
    }
    proof {
        assert(values.deep_view().take(values.len() as int) =~= values.deep_view());
    }
}

/// Appends `flag` when `on`.
pub fn push_switch(args: &mut Vec<String>, on: bool, flag: &str)
    ensures
        final(args).deep_view() == old(args).deep_view() + switch(on, flag@),
{
    if on {
        let ghost before = args.deep_view();
        args.push(flag.to_owned());
        proof {
            assert(args.deep_view() =~= before.push(flag@));
            assert(args.deep_view() =~= before + switch(on, flag@));
        }
    } else {
        proof {
            assert(args.deep_view() =~= old(args).deep_view() + switch(on, flag@));
        }
    }
}

/// Appends `prefix` + value when there is a value.
pub fn push_optional(args: &mut Vec<String>, prefix: &str, value: &Option<String>)
    ensures
        final(args).deep_view() == old(args).deep_view() + optional(prefix@, value.deep_view()),
{
    match value {
        Some(text) => {
            let ghost before = args.deep_view();
            args.push(glue(prefix, text.as_str()));
            proof {
                assert(args.deep_view() =~= before.push(prefix@ + text@));
                assert(args.deep_view() =~= before + optional(prefix@, value.deep_view()));
            }
        },
        None => {
            proof {
                assert(args.deep_view() =~= old(args).deep_view() + optional(
                    prefix@,
                    value.deep_view(),
                ));
            }
        },
    }
}

/// Appends the verbosity flag for a level above zero.
pub fn push_verbosity(args: &mut Vec<String>, level: u32)
    ensures
        final(args).deep_view() == old(args).deep_view() + verbosity(level),
{
    if level != 0 {
        let ghost before = args.deep_view();
        let letters = repeat("v", level);
        args.push(glue("-", letters.as_str()));
        proof {
            assert(args.deep_view() =~= before.push("-"@ + repeated("v"@, level as nat)));
            assert(args.deep_view() =~= before + verbosity(level));
        }
    } else {
        proof {
            assert(args.deep_view() =~= old(args).deep_view() + verbosity(level));
        }
    }
}

} // verus!
