//! Reading the declared targets out of a sub-project's manifest.
//!
//! The toolchain's manifest query prints a JSON object with a `targets`
//! array; each element carries a `name` string and a `kind` array of
//! strings. The JSON decoding is done by serde_json behind one trusted
//! wrapper that hands the fields out as plain values; classifying the
//! entries into build targets is verified here.

use vstd::prelude::*;

use crate::errors::BuildError;
use crate::options::str_eq;
use crate::target::Target;
use crate::target::TargetV;

verus! {

/// One element of the manifest's `targets` array, reduced to plain
/// values: the `name` field if it was a string, and the `kind` field if
/// it was an array, each kind kept as a string or as `None` where the
/// element was no string.
pub struct ManifestEntry {
    pub name: Option<String>,
    pub kinds: Option<Vec<Option<String>>>,
}

/// The mathematical value of a [`ManifestEntry`].
pub struct ManifestEntryV {
    pub name: Option<Seq<char>>,
    pub kinds: Option<Seq<Option<Seq<char>>>>,
}

impl View for ManifestEntry {
    type V = ManifestEntryV;

    open spec fn view(&self) -> ManifestEntryV {
        ManifestEntryV { name: self.name.deep_view(), kinds: self.kinds.deep_view() }
    }
}

impl DeepView for ManifestEntry {
    type V = ManifestEntryV;

    open spec fn deep_view(&self) -> ManifestEntryV {
        self.view()
    }
}

/// The manifest entries carried by the given bytes: `None` when the
/// bytes are not JSON or the JSON has no `targets` array, otherwise one
/// entry per element of that array.
pub uninterp spec fn spec_manifest_entries(bytes: Seq<u8>) -> Option<Seq<ManifestEntryV>>;

/// Relies on serde_json::from_slice and on serde_json::Value's accessors
/// get, as_array and as_str: parses the manifest bytes and hands out each
/// declared target's `name` and `kind` fields as plain values, `None` for
/// unparsable bytes or a missing `targets` array.
#[verifier::external_body]
fn read_manifest_entries(bytes: &[u8]) -> (r: Option<Vec<ManifestEntry>>)
    ensures
        r.deep_view() == spec_manifest_entries(bytes@),
{
    let value: serde_json::Value = match serde_json::from_slice(bytes) {
        Ok(v) => v,
        Err(_) => return None,
    };
    let targets = value.get("targets")?.as_array()?;
    Some(targets.iter().map(|t| ManifestEntry {
        name: t.get("name").and_then(|n| n.as_str()).map(|s| s.to_string()),
        kinds: t.get("kind").and_then(|k| k.as_array()).map(
            |a| a.iter().map(|x| x.as_str().map(|s| s.to_string())).collect(),
        ),
    }).collect())
}

/// Some kind of the entry's kind list is exactly `kind`.
pub open spec fn spec_kinds_contain(kinds: Seq<Option<Seq<char>>>, kind: Seq<char>) -> bool {
    exists|i: int| 0 <= i < kinds.len() && kinds[i] == Some(kind)
}

/// Whether the kind list holds the given kind.
fn kinds_contain(kinds: &Vec<Option<String>>, kind: &str) -> (r: bool)
    ensures
        r == spec_kinds_contain(kinds.deep_view(), kind@),
{
    let mut i: usize = 0;
    while i < kinds.len()
        invariant
            0 <= i <= kinds.len(),
            forall|j: int| 0 <= j < i ==> kinds.deep_view()[j] != Some(kind@),
        decreases kinds.len() - i,
    {
        match &kinds[i] {
            Some(k) => {
                if str_eq(k.as_str(), kind) {
                    proof {
                        assert(kinds.deep_view()[i as int] == Some(kind@));
                    }
                    return true;
                }
            },
            None => {},
        }
        proof {
            assert(kinds.deep_view()[i as int] != Some(kind@));
        }
        i += 1;
    }
    false
}

/// The target declared by a manifest entry: an executable when the kind
/// list holds `bin`, a shared library when it holds `dylib` or `cdylib`,
/// and nothing when the entry is incomplete or declares neither.
pub open spec fn spec_target_from_entry(e: ManifestEntryV) -> Option<TargetV> {
    match e.name {
        None => None,
        Some(name) => match e.kinds {
            None => None,
            Some(kinds) => if spec_kinds_contain(kinds, "bin"@) {
                Some(TargetV::Bin(name))
            } else if spec_kinds_contain(kinds, "dylib"@) || spec_kinds_contain(kinds, "cdylib"@) {
                Some(TargetV::Dylib(name))
            } else {
                None
            },
        },
    }
}

impl Target {
    /// Classify one manifest entry; entries lacking a string name or a
    /// kind array, and entries declaring neither an executable nor a
    /// shared library, are dropped.
    pub fn from_entry(entry: &ManifestEntry) -> (r: Option<Target>)
        ensures
            r.deep_view() == spec_target_from_entry(entry@),
    {
        let name = match &entry.name {
            Some(n) => n,
            None => {
                return None;
            },
        };
        let kinds = match &entry.kinds {
            Some(k) => k,
            None => {
                return None;
            },
        };
        if kinds_contain(kinds, "bin") {
            Some(Target::Bin(name.clone()))
        } else if kinds_contain(kinds, "dylib") || kinds_contain(kinds, "cdylib") {
            Some(Target::Dylib(name.clone()))
        } else {
            None
        }
    }
}

/// The targets declared by a list of manifest entries, in order, with
/// the unclassifiable entries dropped.
pub open spec fn spec_targets_from_entries(entries: Seq<ManifestEntryV>) -> Seq<TargetV>
    decreases entries.len(),
{
    if entries.len() == 0 {
        Seq::empty()
    } else {
        spec_targets_from_entries(entries.drop_last()) + (match spec_target_from_entry(
            entries.last(),
        ) {
            Some(t) => seq![t],
            None => Seq::empty(),
        })
    }
}

/// The targets declared by the manifest bytes: `None` exactly when the
/// bytes carry no `targets` array.
pub open spec fn spec_enumerate_targets(bytes: Seq<u8>) -> Option<Seq<TargetV>> {
    match spec_manifest_entries(bytes) {
        None => None,
        Some(entries) => Some(spec_targets_from_entries(entries)),
    }
}

/// Parse the manifest query's standard output and list the declared
/// targets. `None` means the output was not JSON or had no `targets`
/// array — never an empty target list.
pub fn enumerate_targets_opt(json_slice: &[u8]) -> (r: Option<Vec<Target>>)
    ensures
        r.deep_view() == spec_enumerate_targets(json_slice@),
{
    let entries = match read_manifest_entries(json_slice) {
        Some(es) => es,
        None => {
            return None;
        },
    };
    let ghost all: Seq<ManifestEntryV> = entries.deep_view();
    let mut targets: Vec<Target> = Vec::new();
    let mut i: usize = 0;
    while i < entries.len()
        invariant
            0 <= i <= entries.len(),
            all == entries.deep_view(),
            all.len() == entries.len(),
            targets.deep_view() =~= spec_targets_from_entries(all.take(i as int)),
        decreases entries.len() - i,
    {
        proof {
            assert(all[i as int] == entries@[i as int]@);
            assert(all.take(i as int + 1).drop_last() =~= all.take(i as int));
            assert(all.take(i as int + 1).last() == all[i as int]);
        }
        match Target::from_entry(&entries[i]) {
            Some(t) => {
                proof {
                    assert(targets.deep_view().len() == spec_targets_from_entries(
                        all.take(i as int),
                    ).len());
                }
                targets.push(t);
                proof {
                    assert(targets.deep_view() =~= spec_targets_from_entries(
                        all.take(i as int + 1),
                    ));
                }
            },
            None => {
                proof {
                    assert(targets.deep_view() =~= spec_targets_from_entries(
                        all.take(i as int + 1),
                    ));
                }
            },
        }
        i += 1;
    }
    proof {
        assert(all.take(entries@.len() as int) =~= all);
    }
    Some(targets)
}

/// Read the declared targets out of the manifest query's output, or
/// report `ManifestUnparsable` — and no other error — exactly when that
/// output carries no `targets` array.
pub fn parse_manifest(json_slice: &[u8]) -> (r: Result<Vec<Target>, BuildError>)
    ensures
        match r {
            Ok(ts) => spec_enumerate_targets(json_slice@) == Some(ts.deep_view()),
            Err(e) => spec_enumerate_targets(json_slice@) is None && e
                == BuildError::ManifestUnparsable,
        },
{
    match enumerate_targets_opt(json_slice) {
        Some(ts) => Ok(ts),
        None => Err(BuildError::ManifestUnparsable),
    }
}

} // verus!
