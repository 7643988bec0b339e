//! Which platform SDK a target triple needs, and how the SDK's path is
//! asked of the SDK lookup tool.

use vstd::prelude::*;
use crate::target::{apple_marker, ios_marker, is_apple_family};
use crate::text::{
    contains, lemma_contains_transitive, lemma_pattern_chars_occur, occurs_at, str_contains,
    str_equals, str_trimmed, trimmed,
};

verus! {

/// The program that prints the path of an SDK.
pub const SDK_LOOKUP_TOOL: &'static str = "xcrun";

/// A platform SDK that the lookup tool knows by name.
#[derive(Debug, Clone, Copy, PartialEq, Eq, Structural)]
pub enum SdkKind {
    MacOsx,
    IphoneSimulator,
    IphoneOs,
}

/// The substring that marks a triple of Apple's desktop platform.
pub open spec fn desktop_marker() -> Seq<char> {
    "apple-darwin"@
}

/// The two triples of the iOS simulator, 64-bit and 32-bit.
pub open spec fn is_simulator_triple(triple: Seq<char>) -> bool {
    triple == "x86_64-apple-ios"@ || triple == "i386-apple-ios"@
}

/// The two triples of iOS devices, 64-bit and 32-bit.
pub open spec fn is_device_triple(triple: Seq<char>) -> bool {
    triple == "aarch64-apple-ios"@ || triple == "armv7-apple-ios"@
}

/// The SDK that a triple is compiled against, if it needs one.
pub open spec fn sdk_kind_of(triple: Seq<char>) -> Option<SdkKind> {
    if contains(triple, desktop_marker()) {
        Some(SdkKind::MacOsx)
    } else if is_simulator_triple(triple) {
        Some(SdkKind::IphoneSimulator)
    } else if is_device_triple(triple) {
        Some(SdkKind::IphoneOs)
    } else {
        None
    }
}

impl SdkKind {
    /// The name by which the lookup tool knows this SDK.
    pub open spec fn name_of(self) -> Seq<char> {
        match self {
            SdkKind::MacOsx => "macosx"@,
            SdkKind::IphoneSimulator => "iphonesimulator"@,
            SdkKind::IphoneOs => "iphoneos"@,
        }
    }

    /// The arguments with which the lookup tool prints this SDK's path.
    pub open spec fn lookup_args_of(self) -> Seq<Seq<char>> {
        seq!["--sdk"@, self.name_of(), "--show-sdk-path"@]
    }

    /// The name by which the lookup tool knows this SDK.
    pub fn name(&self) -> (name: &'static str)
        ensures
            name@ == self.name_of(),
    {
        match self {
            SdkKind::MacOsx => "macosx",
            SdkKind::IphoneSimulator => "iphonesimulator",
            SdkKind::IphoneOs => "iphoneos",
        }
    }

    /// The arguments to run the lookup tool with, so that it prints the path
    /// of this SDK: two fixed flags around the SDK's name.
    pub fn lookup_args(&self) -> (args: Vec<String>)
        ensures
            args.deep_view() == self.lookup_args_of(),
    {
        let mut args: Vec<String> = Vec::new();
        args.push("--sdk".to_owned());
        args.push(self.name().to_owned());
        args.push("--show-sdk-path".to_owned());
        assert(args.deep_view() =~= self.lookup_args_of());
        args
    }
}

/// The SDK that `target` is compiled against, `None` where the target needs
/// no SDK lookup.
pub fn sdk_kind(target: &str) -> (kind: Option<SdkKind>)
    ensures
        kind == sdk_kind_of(target@),
{
    if str_contains(target, "apple-darwin") {
        Some(SdkKind::MacOsx)
    } else if str_equals(target, "x86_64-apple-ios") || str_equals(target, "i386-apple-ios") {
        Some(SdkKind::IphoneSimulator)
    } else if str_equals(target, "aarch64-apple-ios") || str_equals(target, "armv7-apple-ios") {
        Some(SdkKind::IphoneOs)
    } else {
        None
    }
}

/// The SDK path that the lookup answers with: none for a triple without an
/// SDK or where the tool was not run, and else what the tool printed,
/// without the white space around it.
pub open spec fn sdk_path_of(triple: Seq<char>, lookup_output: Option<Seq<char>>) -> Option<
    Seq<char>,
> {
    match lookup_output {
        Some(output) if sdk_kind_of(triple) is Some => Some(trimmed(output)),
        _ => None,
    }
}

/// The path of the SDK that `target` is compiled against.
///
/// `lookup_output` is what the lookup tool printed when it was run with the
/// arguments for the SDK of `target`, and `None` if it was not run.
pub fn sdk_path(target: &str, lookup_output: Option<&str>) -> (path: Option<String>)
    ensures
        path.deep_view() == sdk_path_of(target@, lookup_output.deep_view()),
{
    match lookup_output {
        Some(output) => {
            if sdk_kind(target).is_some() {
                Some(str_trimmed(output))
            } else {
                None
            }
        },
        None => None,
    }
}

/// The SDK of each kind of triple: the two simulator triples take the
/// simulator SDK, the two device triples the device SDK, every other triple
/// with the desktop marker the desktop SDK, and all the rest none.
pub proof fn lemma_sdk_kind_by_triple(triple: Seq<char>)
    ensures
        is_simulator_triple(triple) ==> sdk_kind_of(triple) == Some(SdkKind::IphoneSimulator),
        is_device_triple(triple) ==> sdk_kind_of(triple) == Some(SdkKind::IphoneOs),
        contains(triple, desktop_marker()) && !is_simulator_triple(triple) && !is_device_triple(
            triple,
        ) ==> sdk_kind_of(triple) == Some(SdkKind::MacOsx),
        !contains(triple, desktop_marker()) && !is_simulator_triple(triple) && !is_device_triple(
            triple,
        ) ==> sdk_kind_of(triple) is None,
{
    reveal_strlit("x86_64-apple-ios");
    reveal_strlit("i386-apple-ios");
    reveal_strlit("aarch64-apple-ios");
    reveal_strlit("armv7-apple-ios");
    assert("x86_64-apple-ios"@.len() == 16 && "i386-apple-ios"@.len() == 14);
    assert("aarch64-apple-ios"@.len() == 17 && "armv7-apple-ios"@.len() == 15);
    if is_simulator_triple(triple) || is_device_triple(triple) {
        lemma_ios_triple_is_not_desktop(triple);
    }
}

/// None of the four iOS triples holds the desktop marker: the marker has a
/// `d`, and they have none.
pub proof fn lemma_ios_triple_is_not_desktop(triple: Seq<char>)
    requires
        is_simulator_triple(triple) || is_device_triple(triple),
    ensures
        !contains(triple, desktop_marker()),
{
    reveal_strlit("apple-darwin");
    reveal_strlit("x86_64-apple-ios");
    reveal_strlit("i386-apple-ios");
    reveal_strlit("aarch64-apple-ios");
    reveal_strlit("armv7-apple-ios");
    if contains(triple, desktop_marker()) {
        lemma_pattern_chars_occur(triple, desktop_marker(), 6);
        assert(desktop_marker()[6] == 'd');
        assert(forall|j: int| 0 <= j < triple.len() ==> triple[j] != 'd');
    }
}

/// Only a triple of an Apple platform has an SDK to look up.
pub proof fn lemma_sdk_only_for_apple(triple: Seq<char>)
    requires
        sdk_kind_of(triple) is Some,
    ensures
        is_apple_family(triple),
{
    reveal_strlit("apple-darwin");
    reveal_strlit("apple");
    reveal_strlit("ios");
    reveal_strlit("x86_64-apple-ios");
    reveal_strlit("i386-apple-ios");
    reveal_strlit("aarch64-apple-ios");
    reveal_strlit("armv7-apple-ios");
    if contains(triple, desktop_marker()) {
        assert(desktop_marker().subrange(0, 5) =~= apple_marker());
        assert(occurs_at(desktop_marker(), apple_marker(), 0));
        lemma_contains_transitive(triple, desktop_marker(), apple_marker());
    } else {
        let at = triple.len() - 3;
        assert(triple.subrange(at, at + 3) =~= ios_marker());
        assert(occurs_at(triple, ios_marker(), at));
    }
}

} // verus!
