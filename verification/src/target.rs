//! Declared build targets and platform-specific artifact naming.
//!
//! A target is an executable or a shared library. For each host platform
//! the toolchain emits an artifact under a default name, and this system
//! relocates it under a destination name; the two differ only for shared
//! libraries on the Apple platform, where the host runtime insists on a
//! `.so` extension while the toolchain natively emits `.dylib`.

use vstd::prelude::*;

verus! {

/// The naming convention of the host platform. Always passed in
/// explicitly, never detected here, so that all three conventions can be
/// exercised from one binary.
#[derive(Clone, Copy, PartialEq, Eq, Structural, Debug)]
pub enum Platform {
    /// POSIX-like systems other than the Apple one.
    Posix,
    /// The Apple platform.
    Apple,
    /// Windows.
    Windows,
}

/// A declared build target: an executable or a shared library, each
/// carrying the name under which the toolchain builds it.
#[derive(Debug)]
pub enum Target {
    Bin(String),
    Dylib(String),
}

/// The mathematical value of a [`Target`].
pub enum TargetV {
    Bin(Seq<char>),
    Dylib(Seq<char>),
}

impl View for Target {
    type V = TargetV;

    open spec fn view(&self) -> TargetV {
        match self {
            Target::Bin(name) => TargetV::Bin(name@),
            Target::Dylib(name) => TargetV::Dylib(name@),
        }
    }
}

impl DeepView for Target {
    type V = TargetV;

    open spec fn deep_view(&self) -> TargetV {
        self.view()
    }
}

/// The name a target was declared under.
pub open spec fn spec_target_name(t: TargetV) -> Seq<char> {
    match t {
        TargetV::Bin(name) => name,
        TargetV::Dylib(name) => name,
    }
}

/// The filename under which the artifact is placed in the output tree.
pub open spec fn spec_dest_filename(t: TargetV, p: Platform) -> Seq<char> {
    match t {
        TargetV::Bin(name) => match p {
            Platform::Posix => name,
            Platform::Apple => name,
            Platform::Windows => name + ".exe"@,
        },
        TargetV::Dylib(name) => match p {
            Platform::Posix => "lib"@ + name + ".so"@,
            Platform::Apple => "lib"@ + name + ".so"@,
            Platform::Windows => name + ".dll"@,
        },
    }
}

/// The filename under which the toolchain emits the artifact.
pub open spec fn spec_source_filename(t: TargetV, p: Platform) -> Seq<char> {
    match t {
        TargetV::Bin(name) => match p {
            Platform::Posix => name,
            Platform::Apple => name,
            Platform::Windows => name + ".exe"@,
        },
        TargetV::Dylib(name) => match p {
            Platform::Posix => "lib"@ + name + ".so"@,
            Platform::Apple => "lib"@ + name + ".dylib"@,
            Platform::Windows => name + ".dll"@,
        },
    }
}

impl Target {
    /// The declared name of the target.
    pub fn name(&self) -> (r: &String)
        ensures
            r@ == spec_target_name(self@),
    {
        match self {
            Target::Bin(name) => name,
            Target::Dylib(name) => name,
        }
    }
}

/// The (destination filename, toolchain-produced filename) pair for a
/// target under a platform's naming convention.
pub fn target_filenames(target: &Target, platform: Platform) -> (r: (String, String))
    ensures
        r.0@ == spec_dest_filename(target@, platform),
        r.1@ == spec_source_filename(target@, platform),
{
    match target {
        Target::Bin(name) => match platform {
            Platform::Posix | Platform::Apple => (name.clone(), name.clone()),
            Platform::Windows => {
                let mut d = name.clone();
                d.append(".exe");
                let s = d.clone();
                (d, s)
            },
        },
        Target::Dylib(name) => match platform {
            Platform::Posix => {
                let mut d = String::from_str("lib");
                d.append(name.as_str());
                d.append(".so");
                let s = d.clone();
                (d, s)
            },
            Platform::Apple => {
                let mut d = String::from_str("lib");
                d.append(name.as_str());
                d.append(".so");
                let mut s = String::from_str("lib");
                s.append(name.as_str());
                s.append(".dylib");
                (d, s)
            },
            Platform::Windows => {
                let mut d = name.clone();
                d.append(".dll");
                let s = d.clone();
                (d, s)
            },
        },
    }
}

/// The extra linker directives a target needs: shared libraries on the
/// Apple platform suppress flat-namespace/undefined-symbol errors that
/// loading through the foreign-function interface otherwise triggers;
/// everything else needs none.
pub open spec fn spec_linker_args(t: TargetV, p: Platform) -> Seq<Seq<char>> {
    match (t, p) {
        (TargetV::Dylib(_), Platform::Apple) => seq![
            "--"@,
            "--codegen"@,
            "link-args=-flat_namespace -undefined suppress"@,
        ],
        _ => Seq::empty(),
    }
}

/// The extra linker directives to append to a target's toolchain
/// invocation.
pub fn linker_args(target: &Target, platform: Platform) -> (r: Vec<String>)
    ensures
        r.deep_view() == spec_linker_args(target@, platform),
{
    match (target, platform) {
        (Target::Dylib(_), Platform::Apple) => {
            let mut r: Vec<String> = Vec::new();
            r.push(String::from_str("--"));
            r.push(String::from_str("--codegen"));
            r.push(String::from_str("link-args=-flat_namespace -undefined suppress"));
            proof {
                assert(r.deep_view() =~= spec_linker_args(target@, platform));
            }
            r
        },
        _ => {
            let r: Vec<String> = Vec::new();
            proof {
                assert(r.deep_view() =~= spec_linker_args(target@, platform));
            }
            r
        },
    }
}

/// Artifact naming is a pure function of the target's kind and name and
/// the platform: two targets that agree on kind and name receive the same
/// filename pair, whatever else is around them.
pub proof fn lemma_target_filenames_pure(t1: TargetV, t2: TargetV, p: Platform)
    requires
        spec_target_name(t1) == spec_target_name(t2),
        t1 is Bin <==> t2 is Bin,
    ensures
        spec_dest_filename(t1, p) == spec_dest_filename(t2, p),
        spec_source_filename(t1, p) == spec_source_filename(t2, p),
        spec_linker_args(t1, p) == spec_linker_args(t2, p),
{
}

/// On the Apple platform a shared library's destination filename takes
/// the `.so` extension while the toolchain-produced filename takes
/// `.dylib`, so the two always differ; the destination agrees with the
/// other POSIX-like convention.
pub proof fn lemma_apple_shared_library_naming(name: Seq<char>)
    ensures
        spec_dest_filename(TargetV::Dylib(name), Platform::Apple) == "lib"@ + name + ".so"@,
        spec_source_filename(TargetV::Dylib(name), Platform::Apple) == "lib"@ + name + ".dylib"@,
        spec_dest_filename(TargetV::Dylib(name), Platform::Apple) == spec_dest_filename(
            TargetV::Dylib(name),
            Platform::Posix,
        ),
        spec_dest_filename(TargetV::Dylib(name), Platform::Apple) != spec_source_filename(
            TargetV::Dylib(name),
            Platform::Apple,
        ),
{
    reveal_strlit(".so");
    reveal_strlit(".dylib");
    assert(spec_dest_filename(TargetV::Dylib(name), Platform::Apple).len() != spec_source_filename(
        TargetV::Dylib(name),
        Platform::Apple,
    ).len());
}

/// An executable's filenames are the bare name on both POSIX-like
/// platforms, identical between destination and source everywhere, and
/// differ only by the `.exe` suffix on Windows.
pub proof fn lemma_executable_naming(name: Seq<char>)
    ensures
        spec_dest_filename(TargetV::Bin(name), Platform::Posix) == name,
        spec_dest_filename(TargetV::Bin(name), Platform::Apple) == name,
        spec_dest_filename(TargetV::Bin(name), Platform::Windows) == name + ".exe"@,
        forall|p: Platform|
            spec_source_filename(TargetV::Bin(name), p) == #[trigger] spec_dest_filename(
                TargetV::Bin(name),
                p,
            ),
{
    assert forall|p: Platform|
        spec_source_filename(TargetV::Bin(name), p) == #[trigger] spec_dest_filename(
            TargetV::Bin(name),
            p,
        ) by {
        match p {
            Platform::Posix => {},
            Platform::Apple => {},
            Platform::Windows => {},
        }
    }
}

} // verus!
