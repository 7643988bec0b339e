//! Assembly of the argument list that a C++ front end is run with.
//!
//! The list is built in a fixed order: the language flags, the SDK sysroot
//! and the extra arguments of the target's platform, one include flag for
//! each include directory, and the target flag last.

use vstd::prelude::*;
use vstd::string::StringExecFns;
use crate::sdk::{sdk_kind, sdk_kind_of, SdkKind};
use crate::target::{classify, ios_marker, target_family, TargetFamily};
use crate::text::{occurs_at, str_equals};

verus! {

/// The C++ standard that the headers are read in.
#[derive(Debug, Clone, Copy, PartialEq, Eq, Structural)]
pub enum CppStandard {
    Cpp11,
    Cpp14,
    Cpp17,
}

impl CppStandard {
    /// The flag that selects this standard.
    pub open spec fn flag_of(self) -> Seq<char> {
        match self {
            CppStandard::Cpp11 => "-std=c++11"@,
            CppStandard::Cpp14 => "-std=c++14"@,
            CppStandard::Cpp17 => "-std=c++17"@,
        }
    }

    /// The flag that selects this standard.
    pub fn flag(&self) -> (flag: &'static str)
        ensures
            flag@ == self.flag_of(),
    {
        match self {
            CppStandard::Cpp11 => "-std=c++11",
            CppStandard::Cpp14 => "-std=c++14",
            CppStandard::Cpp17 => "-std=c++17",
        }
    }
}

/// What is chosen once for a build, whatever the target.
#[derive(Debug, Clone, Copy, PartialEq, Eq, Structural)]
pub struct ClangConfig {
    /// The C++ standard.
    pub standard: CppStandard,
    /// Whether to ask for the platform's C++ runtime library, libc++.
    pub use_libcxx: bool,
}

/// The flags that do not depend on the target: C++ source mode, the C++
/// runtime library if it is asked for, and the standard.
pub open spec fn language_flags(config: ClangConfig) -> Seq<Seq<char>> {
    if config.use_libcxx {
        seq!["-xc++"@, "-stdlib=libc++"@, config.standard.flag_of()]
    } else {
        seq!["-xc++"@, config.standard.flag_of()]
    }
}

/// The sysroot flag and its path, for a triple that has an SDK whose path
/// was found.
pub open spec fn sysroot_flags(triple: Seq<char>, sdk_root: Option<Seq<char>>) -> Seq<Seq<char>> {
    match sdk_root {
        Some(path) if sdk_kind_of(triple) is Some => seq!["-isysroot"@, path],
        _ => seq![],
    }
}

/// The arguments that depend on the platform family of the triple: for an
/// Apple platform the sysroot flags and then the Apple arguments, for Android
/// the Android arguments, and nothing for any other triple.
pub open spec fn platform_flags(
    triple: Seq<char>,
    sdk_root: Option<Seq<char>>,
    apple_args: Seq<Seq<char>>,
    android_args: Seq<Seq<char>>,
) -> Seq<Seq<char>> {
    match classify(triple) {
        Some(TargetFamily::Ios) | Some(TargetFamily::MacOs) => sysroot_flags(triple, sdk_root)
            + apple_args,
        Some(TargetFamily::Android) => android_args,
        None => seq![],
    }
}

/// The flag that adds one directory to the include path.
pub open spec fn include_flag(dir: Seq<char>) -> Seq<char> {
    "-I"@ + dir
}

/// One include flag for each directory, in the directories' order.
pub open spec fn include_flags(includes: Seq<Seq<char>>) -> Seq<Seq<char>> {
    Seq::new(includes.len(), |i: int| include_flag(includes[i]))
}

/// The spelling of a triple that the front end expects. The SDK lookup tool
/// and the front end disagree on the 64-bit ARM iOS triple; every other
/// triple is spelled the same by both.
pub open spec fn clang_target_of(triple: Seq<char>) -> Seq<char> {
    if triple == "aarch64-apple-ios"@ {
        "arm64-apple-ios"@
    } else {
        triple
    }
}

/// The flag that names the target.
pub open spec fn target_flag(triple: Seq<char>) -> Seq<char> {
    "--target="@ + clang_target_of(triple)
}

/// The whole argument list, in its order.
pub open spec fn clang_args_of(
    config: ClangConfig,
    triple: Seq<char>,
    sdk_root: Option<Seq<char>>,
    includes: Seq<Seq<char>>,
    apple_args: Seq<Seq<char>>,
    android_args: Seq<Seq<char>>,
) -> Seq<Seq<char>> {
    language_flags(config) + platform_flags(triple, sdk_root, apple_args, android_args)
        + include_flags(includes) + seq![target_flag(triple)]
}

/// The spelling of `target` that the front end expects.
pub fn clang_target(target: &str) -> (corrected: String)
    ensures
        corrected@ == clang_target_of(target@),
{
    if str_equals(target, "aarch64-apple-ios") {
        "arm64-apple-ios".to_owned()
    } else {
        target.to_owned()
    }
}

/// Appends a copy of each of `extra` to `args`, in order.
fn push_all(args: &mut Vec<String>, extra: &[String])
    ensures
        final(args).deep_view() == old(args).deep_view() + extra.deep_view(),
{
    let mut i: usize = 0;
    while i < extra.len()
        invariant
            i <= extra.len(),
            args.deep_view() == old(args).deep_view() + extra.deep_view().take(i as int),
        decreases extra.len() - i,
    {
        let ghost before = args.deep_view();
        args.push(extra[i].clone());
        assert(args.deep_view() =~= before.push(extra[i as int]@));
        assert(extra.deep_view().take(i + 1) =~= extra.deep_view().take(i as int).push(
            extra[i as int]@,
        ));
        i += 1;
    }
    assert(extra.deep_view().take(i as int) =~= extra.deep_view());
}

/// Appends the include flag of each of `includes` to `args`, in order.
fn push_include_flags(args: &mut Vec<String>, includes: &[&str])
    ensures
        final(args).deep_view() == old(args).deep_view() + include_flags(includes.deep_view()),
{
    let mut i: usize = 0;
    while i < includes.len()
        invariant
            i <= includes.len(),
            args.deep_view() == old(args).deep_view() + include_flags(includes.deep_view()).take(
                i as int,
            ),
        decreases includes.len() - i,
    {
        let ghost before = args.deep_view();
        let mut flag = "-I".to_owned();
        flag.append(includes[i]);
        args.push(flag);
        assert(args.deep_view() =~= before.push(include_flag(includes[i as int]@)));
        assert(include_flags(includes.deep_view()).take(i + 1) =~= include_flags(
            includes.deep_view(),
        ).take(i as int).push(include_flag(includes[i as int]@)));
        i += 1;
    }
    assert(include_flags(includes.deep_view()).take(i as int) =~= include_flags(
        includes.deep_view(),
    ));
}

/// Builds the argument list for `target`.
///
/// `sdk_root` is the path that the SDK lookup tool printed for the SDK of
/// `target`, if the tool was asked. It is used only where `target` has an
/// SDK. The triple is looked up as it was given; only the target flag takes
/// the spelling that the front end expects.
pub fn default_clang_args(
    config: &ClangConfig,
    target: &str,
    sdk_root: Option<String>,
    includes: &[&str],
    apple_args: &[String],
    android_args: &[String],
) -> (args: Vec<String>)
    ensures
        args.deep_view() == clang_args_of(
            *config,
            target@,
            sdk_root.deep_view(),
            includes.deep_view(),
            apple_args.deep_view(),
            android_args.deep_view(),
        ),
{
    let mut args: Vec<String> = Vec::new();
    args.push("-xc++".to_owned());
    if config.use_libcxx {
        args.push("-stdlib=libc++".to_owned());
    }
    args.push(config.standard.flag().to_owned());
    assert(args.deep_view() =~= language_flags(*config));

    let ghost platform = platform_flags(
        target@,
        sdk_root.deep_view(),
        apple_args.deep_view(),
        android_args.deep_view(),
    );
    match target_family(target) {
        Some(TargetFamily::Ios) | Some(TargetFamily::MacOs) => {
            if sdk_kind(target).is_some() {
                if let Some(path) = sdk_root {
                    args.push("-isysroot".to_owned());
                    args.push(path);
                }
            }
            assert(args.deep_view() =~= language_flags(*config) + sysroot_flags(
                target@,
                sdk_root.deep_view(),
            ));
            push_all(&mut args, apple_args);
        },
        Some(TargetFamily::Android) => {
            push_all(&mut args, android_args);
        },
        None => {},
    }
    assert(args.deep_view() =~= language_flags(*config) + platform);

    push_include_flags(&mut args, includes);

    let mut flag = "--target=".to_owned();
    let corrected = clang_target(target);
    flag.append(corrected.as_str());
    args.push(flag);
    assert(args.deep_view() =~= clang_args_of(
        *config,
        target@,
        sdk_root.deep_view(),
        includes.deep_view(),
        apple_args.deep_view(),
        android_args.deep_view(),
    ));
    args
}

/// The argument list depends on nothing but the inputs: two lists built
/// from the same inputs hold the same arguments in the same order.
pub proof fn lemma_clang_args_deterministic(
    first: Vec<String>,
    second: Vec<String>,
    config: ClangConfig,
    triple: Seq<char>,
    sdk_root: Option<Seq<char>>,
    includes: Seq<Seq<char>>,
    apple_args: Seq<Seq<char>>,
    android_args: Seq<Seq<char>>,
)
    requires
        first.deep_view() == clang_args_of(
            config,
            triple,
            sdk_root,
            includes,
            apple_args,
            android_args,
        ),
        second.deep_view() == clang_args_of(
            config,
            triple,
            sdk_root,
            includes,
            apple_args,
            android_args,
        ),
    ensures
        first.deep_view() == second.deep_view(),
        first.len() == second.len(),
        forall|i: int| 0 <= i < first.len() ==> (#[trigger] first[i])@ == second[i]@,
{
    assert(first.deep_view().len() == first.len());
    assert(second.deep_view().len() == second.len());
    assert forall|i: int| 0 <= i < first.len() implies (#[trigger] first[i])@ == second[i]@ by {
        assert(first.deep_view()[i] == first[i]@);
        assert(second.deep_view()[i] == second[i]@);
    }
}

/// A triple of no known family gets the language flags, the include flags and
/// the target flag with the triple as it was given: no sysroot, and none of
/// the platform arguments.
pub proof fn lemma_unrecognized_target_args(
    config: ClangConfig,
    triple: Seq<char>,
    sdk_root: Option<Seq<char>>,
    includes: Seq<Seq<char>>,
    apple_args: Seq<Seq<char>>,
    android_args: Seq<Seq<char>>,
)
    requires
        classify(triple) is None,
    ensures
        clang_args_of(config, triple, sdk_root, includes, apple_args, android_args)
            == language_flags(config) + include_flags(includes) + seq!["--target="@ + triple],
{
    if triple == "aarch64-apple-ios"@ {
        lemma_arm64_ios_correction();
    }
    assert(platform_flags(triple, sdk_root, apple_args, android_args) =~= Seq::<
        Seq<char>,
    >::empty());
    assert(language_flags(config) + Seq::<Seq<char>>::empty() =~= language_flags(config));
}

/// The include flags stand together, in the order of the directories, each
/// the include prefix followed by its directory, and the target flag stands
/// last, right behind them.
pub proof fn lemma_include_flags_in_order(
    config: ClangConfig,
    triple: Seq<char>,
    sdk_root: Option<Seq<char>>,
    includes: Seq<Seq<char>>,
    apple_args: Seq<Seq<char>>,
    android_args: Seq<Seq<char>>,
)
    ensures
        ({
            let args = clang_args_of(config, triple, sdk_root, includes, apple_args, android_args);
            let first = args.len() - 1 - includes.len();
            &&& first >= language_flags(config).len()
            &&& forall|i: int|
                0 <= i < includes.len() ==> #[trigger] args[first + i] == "-I"@ + includes[i]
            &&& args.last() == target_flag(triple)
        }),
{
}

/// The 64-bit ARM iOS triple is looked up under the spelling of the SDK
/// lookup tool, which knows it as a device triple, and named to the front
/// end under the front end's spelling, which has no SDK of its own.
pub proof fn lemma_arm64_ios_correction()
    ensures
        sdk_kind_of("aarch64-apple-ios"@) == Some(SdkKind::IphoneOs),
        classify("aarch64-apple-ios"@) == Some(TargetFamily::Ios),
        clang_target_of("aarch64-apple-ios"@) == "arm64-apple-ios"@,
        target_flag("aarch64-apple-ios"@) == "--target="@ + "arm64-apple-ios"@,
        "arm64-apple-ios"@ != "aarch64-apple-ios"@,
{
    reveal_strlit("aarch64-apple-ios");
    reveal_strlit("arm64-apple-ios");
    reveal_strlit("ios");
    let triple = "aarch64-apple-ios"@;
    assert(triple.len() == 17 && "arm64-apple-ios"@.len() == 15);
    assert(triple.subrange(14, 17) =~= ios_marker());
    assert(occurs_at(triple, ios_marker(), 14));
    crate::sdk::lemma_sdk_kind_by_triple(triple);
}

} // verus!
