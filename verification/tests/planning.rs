use cargo_erlangapp::build_steps;
use cargo_erlangapp::enumerate_crate_dirs;
use cargo_erlangapp::invoke_with_args_str;
use cargo_erlangapp::profile_dir;
use cargo_erlangapp::BuildType;
use cargo_erlangapp::Platform;
use cargo_erlangapp::Target;

fn owned(args: &[&str]) -> Vec<String> {
    args.into_iter().cloned().map(From::from).collect()
}

#[test]
fn test_crate_dir_selection() {
    // Inclusion depends on the manifest file alone, not on anything else
    // a directory may hold.
    let listing = vec![
        ("helloexe".to_string(), true),
        ("notes".to_string(), false),
        ("bonjourdylib".to_string(), true),
        ("empty".to_string(), false),
    ];
    assert_eq!(owned(&["helloexe", "bonjourdylib"]), enumerate_crate_dirs(&listing));
    assert!(enumerate_crate_dirs(&vec![]).is_empty());
    assert!(enumerate_crate_dirs(&vec![("only-notes".to_string(), false)]).is_empty());
}

#[test]
fn test_profile_directories() {
    assert_eq!("release", profile_dir(BuildType::Release));
    assert_eq!("debug", profile_dir(BuildType::Debug));
    assert_eq!("debug", profile_dir(BuildType::DefaultDebug));
}

#[test]
fn test_build_plan_scenario() {
    // A project with two sub-projects: one executable, one shared
    // library, built on a POSIX platform with no flags at all.
    let ai = invoke_with_args_str(&["cargo-erlangapp", "build"]).unwrap();

    let exe_steps = build_steps(
        &ai,
        &"helloexe".to_string(),
        &vec![Target::Bin("helloexe".to_string())],
        Platform::Posix,
    );
    assert_eq!(1, exe_steps.len());
    assert_eq!(owned(&["--bin", "helloexe"]), exe_steps[0].toolchain_args);
    assert_eq!(owned(&["target", "debug", "helloexe"]), exe_steps[0].source_path);
    assert_eq!(owned(&["priv", "crates", "helloexe", "helloexe"]), exe_steps[0].dest_path);

    let lib_steps = build_steps(
        &ai,
        &"bonjourdylib".to_string(),
        &vec![Target::Dylib("bonjourdylib".to_string())],
        Platform::Posix,
    );
    assert_eq!(1, lib_steps.len());
    assert_eq!(owned(&["--lib"]), lib_steps[0].toolchain_args);
    assert_eq!(owned(&["target", "debug", "libbonjourdylib.so"]), lib_steps[0].source_path);
    assert_eq!(
        owned(&["priv", "crates", "bonjourdylib", "libbonjourdylib.so"]),
        lib_steps[0].dest_path
    );
}

#[test]
fn test_build_plan_release_with_triple() {
    let ai = invoke_with_args_str(&[
        "cargo-erlangapp",
        "build",
        "--release",
        "--target=armv7-unknown-linux-gnueabihf",
    ])
    .unwrap();
    let steps = build_steps(
        &ai,
        &"helloexe".to_string(),
        &vec![Target::Bin("helloexe".to_string())],
        Platform::Posix,
    );
    assert_eq!(1, steps.len());
    // The pass-through tail is forwarded verbatim after the target flag.
    assert_eq!(
        owned(&[
            "--bin",
            "helloexe",
            "--release",
            "--target=armv7-unknown-linux-gnueabihf",
        ]),
        steps[0].toolchain_args
    );
    assert_eq!(
        owned(&["target", "armv7-unknown-linux-gnueabihf", "release", "helloexe"]),
        steps[0].source_path
    );
}

#[test]
fn test_build_plan_apple_dylib() {
    let ai = invoke_with_args_str(&["cargo-erlangapp", "build"]).unwrap();
    let steps = build_steps(
        &ai,
        &"bonjourdylib".to_string(),
        &vec![Target::Dylib("bonjourdylib".to_string())],
        Platform::Apple,
    );
    assert_eq!(1, steps.len());
    // The Apple linker directives ride at the end of the argument list.
    assert_eq!(
        owned(&[
            "--lib",
            "--",
            "--codegen",
            "link-args=-flat_namespace -undefined suppress",
        ]),
        steps[0].toolchain_args
    );
    // The artifact is picked up as `.dylib` and relocated as `.so`.
    assert_eq!(owned(&["target", "debug", "libbonjourdylib.dylib"]), steps[0].source_path);
    assert_eq!(
        owned(&["priv", "crates", "bonjourdylib", "libbonjourdylib.so"]),
        steps[0].dest_path
    );
}

#[test]
fn test_build_plan_one_step_per_target() {
    let ai = invoke_with_args_str(&["cargo-erlangapp", "build"]).unwrap();
    let steps = build_steps(
        &ai,
        &"mixed".to_string(),
        &vec![
            Target::Bin("one".to_string()),
            Target::Dylib("two".to_string()),
            Target::Bin("three".to_string()),
        ],
        Platform::Posix,
    );
    assert_eq!(3, steps.len());
    assert_eq!(owned(&["--bin", "one"]), steps[0].toolchain_args);
    assert_eq!(owned(&["--lib"]), steps[1].toolchain_args);
    assert_eq!(owned(&["--bin", "three"]), steps[2].toolchain_args);
}
