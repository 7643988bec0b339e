//! Classification of a target triple into the platform families that get
//! platform-specific compiler arguments.

use vstd::prelude::*;
use crate::text::{contains, str_contains};

verus! {

/// The substring that marks an iOS triple.
pub open spec fn ios_marker() -> Seq<char> {
    "ios"@
}

/// The substring that marks a triple of the Apple vendor.
pub open spec fn apple_marker() -> Seq<char> {
    "apple"@
}

/// The substring that marks an Android triple.
pub open spec fn android_marker() -> Seq<char> {
    "android"@
}

/// A platform family, without the triple it was found in.
#[derive(Debug, Clone, Copy, PartialEq, Eq, Structural)]
pub enum TargetFamily {
    Ios,
    Android,
    MacOs,
}

/// The family of a triple: the first of the iOS, Apple and Android markers
/// that the triple contains decides; a triple with none of them has no family.
pub open spec fn classify(triple: Seq<char>) -> Option<TargetFamily> {
    if contains(triple, ios_marker()) {
        Some(TargetFamily::Ios)
    } else if contains(triple, apple_marker()) {
        Some(TargetFamily::MacOs)
    } else if contains(triple, android_marker()) {
        Some(TargetFamily::Android)
    } else {
        None
    }
}

/// Whether a triple belongs to an Apple platform, iOS or macOS.
pub open spec fn is_apple_family(triple: Seq<char>) -> bool {
    classify(triple) == Some(TargetFamily::Ios) || classify(triple) == Some(TargetFamily::MacOs)
}

/// The family of `target`, by the markers it contains.
pub fn target_family(target: &str) -> (family: Option<TargetFamily>)
    ensures
        family == classify(target@),
{
    if str_contains(target, "ios") {
        Some(TargetFamily::Ios)
    } else if str_contains(target, "apple") {
        Some(TargetFamily::MacOs)
    } else if str_contains(target, "android") {
        Some(TargetFamily::Android)
    } else {
        None
    }
}

/// A recognized target, with the triple it was recognized from.
#[derive(Debug, Clone, PartialEq, Eq)]
pub enum TargetOs {
    Ios(String),
    Android(String),
    MacOs(String),
}

impl TargetOs {
    /// The family of this target.
    pub open spec fn family(&self) -> TargetFamily {
        match self {
            TargetOs::Ios(_) => TargetFamily::Ios,
            TargetOs::Android(_) => TargetFamily::Android,
            TargetOs::MacOs(_) => TargetFamily::MacOs,
        }
    }

    /// The triple that this target was recognized from.
    pub open spec fn triple(&self) -> Seq<char> {
        match self {
            TargetOs::Ios(triple) => triple@,
            TargetOs::Android(triple) => triple@,
            TargetOs::MacOs(triple) => triple@,
        }
    }

    /// Classifies `target`. A triple of a known family gives that family's
    /// variant, holding the triple unchanged; any other triple gives `None`.
    pub fn detect(target: &str) -> (os: Option<Self>)
        ensures
            os is Some <==> classify(target@) is Some,
            os matches Some(found) ==> Some(found.family()) == classify(target@)
                && found.triple() == target@,
    {
        match target_family(target) {
            Some(TargetFamily::Ios) => Some(TargetOs::Ios(target.to_owned())),
            Some(TargetFamily::MacOs) => Some(TargetOs::MacOs(target.to_owned())),
            Some(TargetFamily::Android) => Some(TargetOs::Android(target.to_owned())),
            None => None,
        }
    }

    /// Whether this is an iOS target.
    pub fn is_ios(&self) -> (yes: bool)
        ensures
            yes == (self.family() == TargetFamily::Ios),
    {
        match self {
            TargetOs::Ios(_) => true,
            _ => false,
        }
    }

    /// Whether this is an Android target.
    pub fn is_android(&self) -> (yes: bool)
        ensures
            yes == (self.family() == TargetFamily::Android),
    {
        match self {
            TargetOs::Android(_) => true,
            _ => false,
        }
    }

    /// Whether this is a macOS target.
    pub fn is_macos(&self) -> (yes: bool)
        ensures
            yes == (self.family() == TargetFamily::MacOs),
    {
        match self {
            TargetOs::MacOs(_) => true,
            _ => false,
        }
    }
}

/// A triple that contains the iOS marker is an iOS triple, whatever else it
/// contains.
pub proof fn lemma_ios_marker_decides(triple: Seq<char>)
    requires
        contains(triple, ios_marker()),
    ensures
        classify(triple) == Some(TargetFamily::Ios),
        is_apple_family(triple),
{
}

} // verus!
