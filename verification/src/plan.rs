//! Sub-project selection and per-target build planning.
//!
//! Discovery lists the immediate subdirectories of the sub-project
//! container; a directory qualifies exactly when it holds the manifest
//! file. For each declared target of a qualifying sub-project, the plan
//! names the toolchain arguments, where the toolchain puts the artifact,
//! and where it is relocated to. Paths are handed around as components
//! for the caller to join.

use vstd::prelude::*;

use crate::args::ArgsInfo;
use crate::args::ArgsInfoV;
use crate::args::BuildType;
use crate::target::linker_args;
use crate::target::spec_dest_filename;
use crate::target::spec_linker_args;
use crate::target::spec_source_filename;
use crate::target::Platform;
use crate::target::Target;
use crate::target::TargetV;

verus! {

/// The qualifying sub-project names, in listing order: each entry pairs
/// a directory's base name with whether it directly holds the manifest
/// file, and exactly the flagged ones are kept.
pub open spec fn spec_selected_crates(entries: Seq<(Seq<char>, bool)>) -> Seq<Seq<char>>
    decreases entries.len(),
{
    if entries.len() == 0 {
        Seq::empty()
    } else {
        spec_selected_crates(entries.drop_last()) + (if entries.last().1 {
            seq![entries.last().0]
        } else {
            Seq::empty()
        })
    }
}

/// Select the sub-project directories out of a directory listing. Each
/// entry is a base name paired with whether the directory directly holds
/// the manifest file; a directory without it is excluded, every one with
/// it is included, in listing order.
pub fn enumerate_crate_dirs(entries: &Vec<(String, bool)>) -> (r: Vec<String>)
    ensures
        r.deep_view() == spec_selected_crates(entries.deep_view()),
{
    let ghost all: Seq<(Seq<char>, bool)> = entries.deep_view();
    let mut r: Vec<String> = Vec::new();
    let mut i: usize = 0;
    while i < entries.len()
        invariant
            0 <= i <= entries.len(),
            all == entries.deep_view(),
            all.len() == entries.len(),
            r.deep_view() =~= spec_selected_crates(all.take(i as int)),
        decreases entries.len() - i,
    {
        proof {
            assert(all[i as int] == (entries@[i as int].0@, entries@[i as int].1));
            assert(all.take(i as int + 1).drop_last() =~= all.take(i as int));
            assert(all.take(i as int + 1).last() == all[i as int]);
        }
        if entries[i].1 {
            let c = entries[i].0.clone();
            proof {
                assert(r.deep_view().len() == spec_selected_crates(all.take(i as int)).len());
            }
            r.push(c);
        }
        proof {
            assert(r.deep_view() =~= spec_selected_crates(all.take(i as int + 1)));
        }
        i += 1;
    }
    proof {
        assert(all.take(entries@.len() as int) =~= all);
    }
    r
}

/// Every directory that holds the manifest file appears in the
/// selection.
pub proof fn lemma_crate_discovery_includes(entries: Seq<(Seq<char>, bool)>, j: int)
    requires
        0 <= j < entries.len(),
        entries[j].1,
    ensures
        spec_selected_crates(entries).contains(entries[j].0),
    decreases entries.len(),
{
    if j == entries.len() - 1 {
        let r = spec_selected_crates(entries);
        assert(r[r.len() - 1] == entries[j].0);
    } else {
        lemma_crate_discovery_includes(entries.drop_last(), j);
        let prefix = spec_selected_crates(entries.drop_last());
        let k = choose|k: int| 0 <= k < prefix.len() && prefix[k] == entries[j].0;
        assert(spec_selected_crates(entries)[k] == entries[j].0);
    }
}

/// Nothing else appears: every selected name is the base name of some
/// listed directory that holds the manifest file, so a directory lacking
/// it is never selected on its own account.
pub proof fn lemma_crate_discovery_excludes(entries: Seq<(Seq<char>, bool)>, k: int)
    requires
        0 <= k < spec_selected_crates(entries).len(),
    ensures
        exists|j: int|
            0 <= j < entries.len() && entries[j].1 && entries[j].0 == spec_selected_crates(
                entries,
            )[k],
    decreases entries.len(),
{
    let r = spec_selected_crates(entries);
    let prefix = spec_selected_crates(entries.drop_last());
    if k < prefix.len() {
        lemma_crate_discovery_excludes(entries.drop_last(), k);
        let dropped = entries.drop_last();
        let j = choose|j: int| 0 <= j < dropped.len() && dropped[j].1 && dropped[j].0 == prefix[k];
        assert(entries[j].1 && entries[j].0 == r[k]);
    } else {
        assert(entries[entries.len() - 1].1 && entries[entries.len() - 1].0 == r[k]);
    }
}

/// The toolchain output subdirectory of a build profile: `release` for
/// the release profile, `debug` both for the explicit debug profile and
/// for the default.
pub open spec fn spec_profile_dir(bt: BuildType) -> Seq<char> {
    match bt {
        BuildType::Release => "release"@,
        BuildType::Debug => "debug"@,
        BuildType::DefaultDebug => "debug"@,
    }
}

/// The toolchain output subdirectory for a build profile.
pub fn profile_dir(bt: BuildType) -> (r: String)
    ensures
        r@ == spec_profile_dir(bt),
{
    match bt {
        BuildType::Release => String::from_str("release"),
        BuildType::Debug => String::from_str("debug"),
        BuildType::DefaultDebug => String::from_str("debug"),
    }
}

/// Artifacts are sought under the `debug` output subdirectory whenever
/// `--release` is absent — also when `--debug` is absent as well — and
/// under `release` whenever `--release` is present, even if `--debug` is
/// present too.
pub proof fn lemma_profile_output_directory(tail: Seq<Seq<char>>)
    ensures
        !crate::options::spec_contains_arg(tail, "--release"@) ==> spec_profile_dir(
            crate::args::spec_build_type(tail),
        ) == "debug"@,
        crate::options::spec_contains_arg(tail, "--release"@) ==> spec_profile_dir(
            crate::args::spec_build_type(tail),
        ) == "release"@,
{
}

/// The argument list of one toolchain build invocation: `--bin name` for
/// an executable or `--lib` for the sub-project's single shared library,
/// then the pass-through arguments verbatim, then the platform- and
/// kind-conditional linker directives.
pub open spec fn spec_rustc_args(t: TargetV, cargo_args: Seq<Seq<char>>, p: Platform) -> Seq<
    Seq<char>,
> {
    (match t {
        TargetV::Bin(name) => seq!["--bin"@, name],
        TargetV::Dylib(_) => seq!["--lib"@],
    }) + cargo_args + spec_linker_args(t, p)
}

/// Append a cloned copy of each argument to `out`.
fn push_all(out: &mut Vec<String>, args: &Vec<String>)
    ensures
        final(out).deep_view() == old(out).deep_view() + args.deep_view(),
{
    let ghost base: Seq<Seq<char>> = old(out).deep_view();
    let mut i: usize = 0;
    while i < args.len()
        invariant
            0 <= i <= args.len(),
            out.deep_view() =~= base + args.deep_view().take(i as int),
        decreases args.len() - i,
    {
        let c = args[i].clone();
        proof {
            assert(c@ == args@[i as int]@);
            assert(args.deep_view()[i as int] == args@[i as int]@);
            assert(out.deep_view().len() == base.len() + i);
            assert(out@.len() == base.len() + i);
        }
        out.push(c);
        proof {
            assert(out@[out@.len() - 1] == c);
            assert(out.deep_view()[out@.len() - 1] == c@);
            let lhs = out.deep_view();
            let rhs = base + args.deep_view().take(i as int + 1);
            assert(lhs.len() == rhs.len());
            assert forall|k: int| 0 <= k < lhs.len() implies lhs[k] == rhs[k] by {
                if k < base.len() + i {
                    assert(lhs[k] == (base + args.deep_view().take(i as int))[k]);
                } else {
                    assert(lhs[k] == c@);
                }
            }
            assert(lhs =~= rhs);
        }
        i += 1;
    }
    proof {
        assert(args.deep_view().take(args@.len() as int) =~= args.deep_view());
    }
}

/// Build the toolchain argument list for one target.
pub fn rustc_args(target: &Target, cargo_args: &Vec<String>, platform: Platform) -> (r: Vec<
    String,
>)
    ensures
        r.deep_view() == spec_rustc_args(target@, cargo_args.deep_view(), platform),
{
    let mut r: Vec<String> = Vec::new();
    match target {
        Target::Bin(name) => {
            r.push(String::from_str("--bin"));
            r.push(name.clone());
        },
        Target::Dylib(_) => {
            r.push(String::from_str("--lib"));
        },
    }
    proof {
        assert(r.deep_view() =~= (match target@ {
            TargetV::Bin(name) => seq!["--bin"@, name],
            TargetV::Dylib(_) => seq!["--lib"@],
        }));
    }
    push_all(&mut r, cargo_args);
    let extra = linker_args(target, platform);
    push_all(&mut r, &extra);
    proof {
        assert(r.deep_view() =~= spec_rustc_args(target@, cargo_args.deep_view(), platform));
    }
    r
}

/// Where the toolchain leaves a target's artifact, as path components
/// relative to the sub-project directory: `target`, then the triple when
/// one was given, then the profile subdirectory, then the
/// toolchain-produced filename.
pub open spec fn spec_source_path(
    triple: Option<Seq<char>>,
    bt: BuildType,
    t: TargetV,
    p: Platform,
) -> Seq<Seq<char>> {
    seq!["target"@] + (match triple {
        Some(tr) => seq![tr],
        None => Seq::empty(),
    }) + seq![spec_profile_dir(bt), spec_source_filename(t, p)]
}

/// Where a target's artifact is relocated to, as path components
/// relative to the project directory: the unified output tree keyed by
/// the sub-project's base name, then the destination filename.
pub open spec fn spec_dest_path(crate_name: Seq<char>, t: TargetV, p: Platform) -> Seq<Seq<char>> {
    seq!["priv"@, "crates"@, crate_name, spec_dest_filename(t, p)]
}

/// One planned build invocation: the toolchain arguments, the artifact's
/// source path relative to the sub-project directory, and its
/// destination path relative to the project directory.
#[derive(Debug)]
pub struct BuildStep {
    pub toolchain_args: Vec<String>,
    pub source_path: Vec<String>,
    pub dest_path: Vec<String>,
}

/// The mathematical value of a [`BuildStep`].
pub struct BuildStepV {
    pub toolchain_args: Seq<Seq<char>>,
    pub source_path: Seq<Seq<char>>,
    pub dest_path: Seq<Seq<char>>,
}

impl View for BuildStep {
    type V = BuildStepV;

    open spec fn view(&self) -> BuildStepV {
        BuildStepV {
            toolchain_args: self.toolchain_args.deep_view(),
            source_path: self.source_path.deep_view(),
            dest_path: self.dest_path.deep_view(),
        }
    }
}

impl DeepView for BuildStep {
    type V = BuildStepV;

    open spec fn deep_view(&self) -> BuildStepV {
        self.view()
    }
}

/// The planned invocation for one target of one sub-project under one
/// parsed invocation.
pub open spec fn spec_build_step(
    ai: ArgsInfoV,
    crate_name: Seq<char>,
    t: TargetV,
    p: Platform,
) -> BuildStepV {
    BuildStepV {
        toolchain_args: spec_rustc_args(t, ai.cargo_args, p),
        source_path: spec_source_path(ai.target, ai.build_type, t, p),
        dest_path: spec_dest_path(crate_name, t, p),
    }
}

/// Plan one target's build invocation.
pub fn build_step(ai: &ArgsInfo, crate_name: &String, target: &Target, platform: Platform) -> (r:
    BuildStep)
    ensures
        r@ == spec_build_step(ai@, crate_name@, target@, platform),
{
    let toolchain_args = rustc_args(target, &ai.cargo_args, platform);

    let (dest_name, source_name) = crate::target::target_filenames(target, platform);

    let mut source_path: Vec<String> = Vec::new();
    source_path.push(String::from_str("target"));
    match &ai.target {
        Some(triple) => {
            source_path.push(triple.clone());
        },
        None => {},
    }
    source_path.push(profile_dir(ai.build_type));
    source_path.push(source_name);
    proof {
        assert(source_path.deep_view() =~= spec_source_path(
            ai@.target,
            ai@.build_type,
            target@,
            platform,
        ));
    }

    let mut dest_path: Vec<String> = Vec::new();
    dest_path.push(String::from_str("priv"));
    dest_path.push(String::from_str("crates"));
    dest_path.push(crate_name.clone());
    dest_path.push(dest_name);
    proof {
        assert(dest_path.deep_view() =~= spec_dest_path(crate_name@, target@, platform));
    }

    BuildStep { toolchain_args, source_path, dest_path }
}

/// Plan the build invocations for every declared target of one
/// sub-project, in declaration order.
pub fn build_steps(
    ai: &ArgsInfo,
    crate_name: &String,
    targets: &Vec<Target>,
    platform: Platform,
) -> (r: Vec<BuildStep>)
    ensures
        r@.len() == targets@.len(),
        forall|i: int|
            0 <= i < r@.len() ==> (#[trigger] r@[i])@ == spec_build_step(
                ai@,
                crate_name@,
                targets@[i]@,
                platform,
            ),
{
    let mut r: Vec<BuildStep> = Vec::new();
    let mut i: usize = 0;
    while i < targets.len()
        invariant
            0 <= i <= targets.len(),
            r@.len() == i,
            forall|j: int|
                0 <= j < i ==> (#[trigger] r@[j])@ == spec_build_step(
                    ai@,
                    crate_name@,
                    targets@[j]@,
                    platform,
                ),
        decreases targets.len() - i,
    {
        let step = build_step(ai, crate_name, &targets[i], platform);
        r.push(step);
        i += 1;
    }
    r
}

} // verus!
