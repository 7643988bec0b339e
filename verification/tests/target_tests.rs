use clang_args::text::{str_contains, str_equals};
use clang_args::target::target_family;
use clang_args::{TargetFamily, TargetOs};

#[test]
fn detect_ios_device_triple() {
    assert_eq!(
        TargetOs::detect("aarch64-apple-ios"),
        Some(TargetOs::Ios("aarch64-apple-ios".to_string()))
    );
}

#[test]
fn detect_ios_marker_wins_over_apple_marker() {
    assert_eq!(
        TargetOs::detect("x86_64-apple-ios"),
        Some(TargetOs::Ios("x86_64-apple-ios".to_string()))
    );
}

#[test]
fn detect_ios_marker_wins_over_android_marker() {
    assert_eq!(
        TargetOs::detect("android-apple-ios-android"),
        Some(TargetOs::Ios("android-apple-ios-android".to_string()))
    );
    assert_eq!(
        TargetOs::detect("androidios"),
        Some(TargetOs::Ios("androidios".to_string()))
    );
}

#[test]
fn detect_macos_triple() {
    assert_eq!(
        TargetOs::detect("x86_64-apple-darwin"),
        Some(TargetOs::MacOs("x86_64-apple-darwin".to_string()))
    );
}

#[test]
fn detect_apple_marker_wins_over_android_marker() {
    assert_eq!(
        TargetOs::detect("android-apple"),
        Some(TargetOs::MacOs("android-apple".to_string()))
    );
}

#[test]
fn detect_android_triple() {
    assert_eq!(
        TargetOs::detect("aarch64-linux-android"),
        Some(TargetOs::Android("aarch64-linux-android".to_string()))
    );
    assert_eq!(
        TargetOs::detect("armv7-linux-androideabi"),
        Some(TargetOs::Android("armv7-linux-androideabi".to_string()))
    );
}

#[test]
fn detect_unrecognized_triples() {
    assert_eq!(TargetOs::detect("x86_64-unknown-linux-gnu"), None);
    assert_eq!(TargetOs::detect("x86_64-pc-windows-msvc"), None);
    assert_eq!(TargetOs::detect(""), None);
    assert_eq!(TargetOs::detect("io"), None);
    assert_eq!(TargetOs::detect("IOS"), None);
}

#[test]
fn detect_is_repeatable() {
    let first = TargetOs::detect("aarch64-apple-ios");
    let second = TargetOs::detect("aarch64-apple-ios");
    assert_eq!(first, second);
}

#[test]
fn target_family_follows_the_markers() {
    assert_eq!(target_family("aarch64-apple-ios"), Some(TargetFamily::Ios));
    assert_eq!(target_family("aarch64-apple-darwin"), Some(TargetFamily::MacOs));
    assert_eq!(target_family("i686-linux-android"), Some(TargetFamily::Android));
    assert_eq!(target_family("wasm32-unknown-unknown"), None);
}

#[test]
fn is_ios_only_for_ios() {
    assert!(TargetOs::Ios("aarch64-apple-ios".to_string()).is_ios());
    assert!(!TargetOs::Android("aarch64-linux-android".to_string()).is_ios());
    assert!(!TargetOs::MacOs("x86_64-apple-darwin".to_string()).is_ios());
}

#[test]
fn is_android_only_for_android() {
    assert!(TargetOs::Android("aarch64-linux-android".to_string()).is_android());
    assert!(!TargetOs::Ios("aarch64-apple-ios".to_string()).is_android());
    assert!(!TargetOs::MacOs("x86_64-apple-darwin".to_string()).is_android());
}

#[test]
fn is_macos_only_for_macos() {
    assert!(TargetOs::MacOs("x86_64-apple-darwin".to_string()).is_macos());
    assert!(!TargetOs::Ios("aarch64-apple-ios".to_string()).is_macos());
    assert!(!TargetOs::Android("aarch64-linux-android".to_string()).is_macos());
}

#[test]
fn str_contains_finds_a_pattern_anywhere() {
    assert!(str_contains("aarch64-apple-ios", "aarch64"));
    assert!(str_contains("aarch64-apple-ios", "apple"));
    assert!(str_contains("aarch64-apple-ios", "ios"));
    assert!(str_contains("aarch64-apple-ios", "aarch64-apple-ios"));
}

#[test]
fn str_contains_rejects_what_is_not_there() {
    assert!(!str_contains("aarch64-apple-ios", "android"));
    assert!(!str_contains("aarch64-apple-ios", "aarch64-apple-ios-"));
    assert!(!str_contains("io", "ios"));
    assert!(!str_contains("", "ios"));
    assert!(!str_contains("i-o-s", "ios"));
}

#[test]
fn str_contains_takes_the_empty_pattern() {
    assert!(str_contains("ios", ""));
    assert!(str_contains("", ""));
}

#[test]
fn str_contains_goes_by_characters() {
    assert!(str_contains("caf\u{e9}-ios", "\u{e9}-i"));
    assert!(!str_contains("caf\u{e9}", "\u{e8}"));
}

#[test]
fn str_equals_compares_whole_strings() {
    assert!(str_equals("armv7-apple-ios", "armv7-apple-ios"));
    assert!(str_equals("", ""));
    assert!(!str_equals("armv7-apple-ios", "armv7-apple-io"));
    assert!(!str_equals("armv7-apple-ios", "armv7-apple-iot"));
    assert!(!str_equals("", "a"));
}
