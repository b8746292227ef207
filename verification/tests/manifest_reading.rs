use cargo_erlangapp::enumerate_targets_opt;
use cargo_erlangapp::parse_manifest;
use cargo_erlangapp::BuildError;
use cargo_erlangapp::ManifestEntry;
use cargo_erlangapp::Target;

fn is_bin(t: &Target, name: &str) -> bool {
    matches!(t, Target::Bin(n) if n == name)
}

fn is_dylib(t: &Target, name: &str) -> bool {
    matches!(t, Target::Dylib(n) if n == name)
}

#[test]
fn test_enumerate_targets_bin_and_dylib() {
    let json = br#"{
        "name": "demo",
        "targets": [
            {"name": "helloexe", "kind": ["bin"]},
            {"name": "bonjourdylib", "kind": ["dylib"]}
        ]
    }"#;
    let targets = enumerate_targets_opt(json).unwrap();
    assert_eq!(2, targets.len());
    assert!(is_bin(&targets[0], "helloexe"));
    assert!(is_dylib(&targets[1], "bonjourdylib"));
}

#[test]
fn test_enumerate_targets_cdylib_counts_as_dylib() {
    let json = br#"{"targets": [{"name": "holalib", "kind": ["cdylib"]}]}"#;
    let targets = enumerate_targets_opt(json).unwrap();
    assert_eq!(1, targets.len());
    assert!(is_dylib(&targets[0], "holalib"));
}

#[test]
fn test_enumerate_targets_bin_wins_over_dylib_in_one_entry() {
    let json = br#"{"targets": [{"name": "both", "kind": ["dylib", "bin"]}]}"#;
    let targets = enumerate_targets_opt(json).unwrap();
    assert_eq!(1, targets.len());
    assert!(is_bin(&targets[0], "both"));
}

#[test]
fn test_enumerate_targets_drops_unrecognized_kinds() {
    let json = br#"{
        "targets": [
            {"name": "quietlib", "kind": ["rlib"]},
            {"name": "helloexe", "kind": ["bin"]}
        ]
    }"#;
    let targets = enumerate_targets_opt(json).unwrap();
    assert_eq!(1, targets.len());
    assert!(is_bin(&targets[0], "helloexe"));
}

#[test]
fn test_enumerate_targets_drops_incomplete_entries() {
    let json = br#"{
        "targets": [
            {"kind": ["bin"]},
            {"name": "nokind"},
            {"name": 7, "kind": ["bin"]},
            {"name": "stringkind", "kind": "bin"},
            {"name": "helloexe", "kind": [3, "bin"]}
        ]
    }"#;
    let targets = enumerate_targets_opt(json).unwrap();
    assert_eq!(1, targets.len());
    assert!(is_bin(&targets[0], "helloexe"));
}

#[test]
fn test_empty_targets_array_is_empty_list() {
    let json = br#"{"targets": []}"#;
    let targets = enumerate_targets_opt(json).unwrap();
    assert!(targets.is_empty());
}

#[test]
fn test_missing_targets_key_is_unparsable() {
    // No `targets` key yields "unparsable", never an empty target list.
    let json = br#"{"name": "demo"}"#;
    assert!(enumerate_targets_opt(json).is_none());
    assert_eq!(Err(BuildError::ManifestUnparsable), parse_manifest(json).map(|_| ()));
}

#[test]
fn test_malformed_json_is_unparsable() {
    let json = b"{ not json at all";
    assert!(enumerate_targets_opt(json).is_none());
    assert_eq!(Err(BuildError::ManifestUnparsable), parse_manifest(json).map(|_| ()));
}

#[test]
fn test_targets_not_an_array_is_unparsable() {
    let json = br#"{"targets": "helloexe"}"#;
    assert!(enumerate_targets_opt(json).is_none());
    assert_eq!(Err(BuildError::ManifestUnparsable), parse_manifest(json).map(|_| ()));
}

#[test]
fn test_parse_manifest_ok() {
    let json = br#"{"targets": [{"name": "helloexe", "kind": ["bin"]}]}"#;
    let targets = parse_manifest(json).unwrap();
    assert_eq!(1, targets.len());
    assert!(is_bin(&targets[0], "helloexe"));
}

#[test]
fn test_classify_single_entry() {
    let bin = ManifestEntry {
        name: Some("helloexe".to_string()),
        kinds: Some(vec![Some("bin".to_string())]),
    };
    assert!(is_bin(&Target::from_entry(&bin).unwrap(), "helloexe"));

    let unnamed = ManifestEntry { name: None, kinds: Some(vec![Some("bin".to_string())]) };
    assert!(Target::from_entry(&unnamed).is_none());

    let kindless = ManifestEntry { name: Some("x".to_string()), kinds: None };
    assert!(Target::from_entry(&kindless).is_none());

    let mixed = ManifestEntry {
        name: Some("holalib".to_string()),
        kinds: Some(vec![None, Some("rlib".to_string()), Some("cdylib".to_string())]),
    };
    assert!(is_dylib(&Target::from_entry(&mixed).unwrap(), "holalib"));
}

#[test]
fn test_error_messages() {
    assert_eq!("cannot parse crate manifest", BuildError::ManifestUnparsable.message());
    assert_eq!("cannot read 'crates' directory", BuildError::CannotEnumerate.message());
    assert_eq!("cannot start cargo", BuildError::ToolchainUnavailable.message());
    assert_eq!("cargo rustc failed", BuildError::ToolchainBuildFailed.message());
    assert_eq!("cargo test failed", BuildError::ToolchainTestFailed.message());
    assert_eq!("cargo clean failed", BuildError::ToolchainCleanFailed.message());
    assert_eq!(
        "cannot create dest directories in priv/",
        BuildError::CannotCreateOutputDir.message()
    );
    assert_eq!("cannot copy artifact", BuildError::CannotCopyArtifact.message());
    assert_eq!("cannot delete output dir", BuildError::CannotDeleteOutputDir.message());
    assert_eq!("no command given", BuildError::NoCommand.message());
}
