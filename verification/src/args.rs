//! Parsing of the process argument vector into a structured invocation.
//!
//! The first argument is the program name and is ignored; the second
//! names the operation (`build`, `test` or `clean`, case-sensitive);
//! everything after it is kept verbatim as the pass-through argument
//! list, from which the build profile and an optional target triple are
//! also extracted without being removed.

use vstd::prelude::*;

use crate::options::find_option;
use crate::options::find_option_value;
use crate::options::spec_contains_arg;
use crate::options::spec_find_option_value;
use crate::options::str_eq;

verus! {

/// The operation to run across all sub-projects.
#[derive(Clone, Copy, PartialEq, Eq, Structural, Debug)]
pub enum CargoCommand {
    Build,
    Test,
    Clean,
}

/// The build profile. `DefaultDebug` is the profile when neither
/// `--release` nor `--debug` was given; it maps to the same output
/// directory as `Debug`.
#[derive(Clone, Copy, PartialEq, Eq, Structural, Debug)]
pub enum BuildType {
    Release,
    Debug,
    DefaultDebug,
}

/// The parsed invocation: the operation, an optional target triple, the
/// build profile, and the verbatim argument tail forwarded to every
/// toolchain invocation.
#[derive(Debug)]
pub struct ArgsInfo {
    pub command: CargoCommand,
    pub target: Option<String>,
    pub build_type: BuildType,
    pub cargo_args: Vec<String>,
}

/// The mathematical value of an [`ArgsInfo`].
pub struct ArgsInfoV {
    pub command: CargoCommand,
    pub target: Option<Seq<char>>,
    pub build_type: BuildType,
    pub cargo_args: Seq<Seq<char>>,
}

impl View for ArgsInfo {
    type V = ArgsInfoV;

    open spec fn view(&self) -> ArgsInfoV {
        ArgsInfoV {
            command: self.command,
            target: self.target.deep_view(),
            build_type: self.build_type,
            cargo_args: self.cargo_args.deep_view(),
        }
    }
}

/// The operation named by the command argument, if it is one of the
/// three recognized names.
pub open spec fn spec_parse_cmd_name(arg: Seq<char>) -> Option<CargoCommand> {
    if arg == "build"@ {
        Some(CargoCommand::Build)
    } else if arg == "test"@ {
        Some(CargoCommand::Test)
    } else if arg == "clean"@ {
        Some(CargoCommand::Clean)
    } else {
        None
    }
}

/// The build profile selected by the argument tail: `--release` wins over
/// `--debug`, and with neither present the profile is `DefaultDebug`.
pub open spec fn spec_build_type(tail: Seq<Seq<char>>) -> BuildType {
    if spec_contains_arg(tail, "--release"@) {
        BuildType::Release
    } else if spec_contains_arg(tail, "--debug"@) {
        BuildType::Debug
    } else {
        BuildType::DefaultDebug
    }
}

/// The invocation parsed from the full argument vector, or `None` when
/// fewer than two arguments are present or the command is unrecognized.
pub open spec fn spec_args_info(args: Seq<Seq<char>>) -> Option<ArgsInfoV> {
    if args.len() < 2 {
        None
    } else {
        match spec_parse_cmd_name(args[1]) {
            None => None,
            Some(cmd) => Some(
                ArgsInfoV {
                    command: cmd,
                    target: spec_find_option_value(args.skip(2), "--target"@),
                    build_type: spec_build_type(args.skip(2)),
                    cargo_args: args.skip(2),
                },
            ),
        }
    }
}

/// Recognize one of the three operation names, case-sensitively.
pub fn parse_cmd_name(arg: &str) -> (r: Option<CargoCommand>)
    ensures
        r == spec_parse_cmd_name(arg@),
{
    if str_eq(arg, "build") {
        Some(CargoCommand::Build)
    } else if str_eq(arg, "test") {
        Some(CargoCommand::Test)
    } else if str_eq(arg, "clean") {
        Some(CargoCommand::Clean)
    } else {
        None
    }
}

/// Copy an argument slice into an owned vector, values unchanged.
fn copy_args(args: &[String]) -> (r: Vec<String>)
    ensures
        r.deep_view() == args.deep_view(),
{
    let mut r: Vec<String> = Vec::new();
    let mut i: usize = 0;
    while i < args.len()
        invariant
            0 <= i <= args.len(),
            r.deep_view() =~= args.deep_view().take(i as int),
        decreases args.len() - i,
    {
        let c = args[i].clone();
        proof {
            assert(c@ == args@[i as int]@);
            assert(args.deep_view()[i as int] == args@[i as int]@);
        }
        proof {
            assert(r.deep_view().len() == i as int);
            assert(r@.len() == i as int);
        }
        r.push(c);
        proof {
            assert(r.deep_view().len() == i + 1);
            assert(r@[i as int] == c);
            assert(r.deep_view()[i as int] == c@);
            assert(r.deep_view() =~= args.deep_view().take(i as int + 1));
        }
        i += 1;
    }
    proof {
        assert(args.deep_view().take(args@.len() as int) =~= args.deep_view());
    }
    r
}

impl ArgsInfo {
    /// Parse the full process argument vector. The first element is the
    /// program name; the second must name the operation; the rest is
    /// retained verbatim as the pass-through tail, with the profile and
    /// the optional `--target` triple read out of it.
    pub fn from_args(args: &[String]) -> (r: Option<ArgsInfo>)
        ensures
            match r {
                Some(ai) => spec_args_info(args.deep_view()) == Some(ai@),
                None => spec_args_info(args.deep_view()) is None,
            },
    {
        if args.len() < 2 {
            return None;
        }
        let cmd = match parse_cmd_name(args[1].as_str()) {
            Some(c) => c,
            None => {
                proof {
                    assert(args.deep_view()[1] == args@[1]@);
                }
                return None;
            },
        };
        proof {
            assert(args.deep_view()[1] == args@[1]@);
        }
        let tail = &args[2..args.len()];
        proof {
            assert(tail.deep_view() =~= args.deep_view().skip(2));
        }
        let build_type = if find_option(tail, "--release") {
            BuildType::Release
        } else if find_option(tail, "--debug") {
            BuildType::Debug
        } else {
            BuildType::DefaultDebug
        };
        let target = find_option_value(tail, "--target");
        let cargo_args = copy_args(tail);
        Some(ArgsInfo { command: cmd, target, build_type, cargo_args })
    }
}

/// Parse an argument vector handed over as string slices. The structured
/// invocation is returned for the caller to act on; an unrecognized or
/// missing command yields `None`, on which the caller prints usage.
pub fn invoke_with_args_str(args: &[&str]) -> (r: Option<ArgsInfo>)
    ensures
        match r {
            Some(ai) => spec_args_info(args.deep_view()) == Some(ai@),
            None => spec_args_info(args.deep_view()) is None,
        },
{
    let mut owned: Vec<String> = Vec::new();
    let mut i: usize = 0;
    while i < args.len()
        invariant
            0 <= i <= args.len(),
            owned.deep_view() =~= args.deep_view().take(i as int),
        decreases args.len() - i,
    {
        let c = args[i].to_owned();
        proof {
            assert(c@ == args@[i as int]@);
            assert(args.deep_view()[i as int] == args@[i as int]@);
        }
        proof {
            assert(owned.deep_view().len() == i as int);
            assert(owned@.len() == i as int);
        }
        owned.push(c);
        proof {
            assert(owned.deep_view().len() == i + 1);
            assert(owned@[i as int] == c);
            assert(owned.deep_view()[i as int] == c@);
            assert(owned.deep_view() =~= args.deep_view().take(i as int + 1));
        }
        i += 1;
    }
    let s = owned.as_slice();
    proof {
        assert(args.deep_view().take(args@.len() as int) =~= args.deep_view());
        assert(s.deep_view() =~= owned.deep_view());
    }
    invoke_with_args(s)
}

/// Parse an owned argument vector into the structured invocation; `None`
/// asks the caller for usage output.
pub fn invoke_with_args(args: &[String]) -> (r: Option<ArgsInfo>)
    ensures
        match r {
            Some(ai) => spec_args_info(args.deep_view()) == Some(ai@),
            None => spec_args_info(args.deep_view()) is None,
        },
{
    ArgsInfo::from_args(args)
}

/// `--release` forces the release profile even when `--debug` is also
/// present; with neither flag the profile defaults to `DefaultDebug`.
pub proof fn lemma_build_profile_selection(tail: Seq<Seq<char>>)
    ensures
        spec_contains_arg(tail, "--release"@) ==> spec_build_type(tail) == BuildType::Release,
        !spec_contains_arg(tail, "--release"@) && spec_contains_arg(tail, "--debug"@)
            ==> spec_build_type(tail) == BuildType::Debug,
        !spec_contains_arg(tail, "--release"@) && !spec_contains_arg(tail, "--debug"@)
            ==> spec_build_type(tail) == BuildType::DefaultDebug,
{
}

} // verus!
