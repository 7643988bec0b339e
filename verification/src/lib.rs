//! Compiler arguments for processing C++ headers when cross-compiling
//! toward Apple and Android targets.

pub mod args;
pub mod frameworks;
pub mod sdk;
pub mod target;
pub mod text;

pub use crate::args::{clang_target, default_clang_args, ClangConfig, CppStandard};
pub use crate::frameworks::{recursive_link_dir, PathEntry};
pub use crate::sdk::{sdk_kind, sdk_path, SdkKind, SDK_LOOKUP_TOOL};
pub use crate::target::{TargetFamily, TargetOs};
