//! Build orchestrator for projects made of independent sub-projects, each
//! compiled by an external toolchain into an executable or a shared library
//! that a host runtime loads through a foreign-function interface.
//!
//! The library holds the verified core: command-line option extraction,
//! invocation parsing, manifest-target classification, platform-specific
//! artifact naming, sub-project selection and build-step planning. The
//! surrounding binary performs the process and filesystem work and feeds
//! plain values in and out of these functions.

pub mod args;
pub mod errors;
pub mod manifest;
pub mod options;
pub mod plan;
pub mod target;

pub use args::invoke_with_args;
pub use args::invoke_with_args_str;
pub use args::ArgsInfo;
pub use args::BuildType;
pub use args::CargoCommand;
pub use errors::BuildError;
pub use manifest::enumerate_targets_opt;
pub use manifest::parse_manifest;
pub use manifest::ManifestEntry;
pub use options::find_option;
pub use options::find_option_value;
pub use plan::build_step;
pub use plan::build_steps;
pub use plan::enumerate_crate_dirs;
pub use plan::profile_dir;
pub use plan::rustc_args;
pub use plan::BuildStep;
pub use target::linker_args;
pub use target::target_filenames;
pub use target::Platform;
pub use target::Target;
