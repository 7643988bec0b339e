use clang_args::text::str_trimmed;
use clang_args::{sdk_kind, sdk_path, SdkKind, SDK_LOOKUP_TOOL};

#[test]
fn sdk_kind_of_the_simulator_triples() {
    assert_eq!(sdk_kind("x86_64-apple-ios"), Some(SdkKind::IphoneSimulator));
    assert_eq!(sdk_kind("i386-apple-ios"), Some(SdkKind::IphoneSimulator));
}

#[test]
fn sdk_kind_of_the_device_triples() {
    assert_eq!(sdk_kind("aarch64-apple-ios"), Some(SdkKind::IphoneOs));
    assert_eq!(sdk_kind("armv7-apple-ios"), Some(SdkKind::IphoneOs));
}

#[test]
fn sdk_kind_of_desktop_triples() {
    assert_eq!(sdk_kind("x86_64-apple-darwin"), Some(SdkKind::MacOsx));
    assert_eq!(sdk_kind("aarch64-apple-darwin"), Some(SdkKind::MacOsx));
    assert_eq!(sdk_kind("aarch64-apple-darwin20"), Some(SdkKind::MacOsx));
}

#[test]
fn sdk_kind_of_other_triples() {
    assert_eq!(sdk_kind("arm64-apple-ios"), None);
    assert_eq!(sdk_kind("aarch64-apple-ios-sim"), None);
    assert_eq!(sdk_kind("aarch64-apple-tvos"), None);
    assert_eq!(sdk_kind("aarch64-linux-android"), None);
    assert_eq!(sdk_kind("x86_64-unknown-linux-gnu"), None);
    assert_eq!(sdk_kind(""), None);
}

#[test]
fn sdk_names() {
    assert_eq!(SdkKind::MacOsx.name(), "macosx");
    assert_eq!(SdkKind::IphoneSimulator.name(), "iphonesimulator");
    assert_eq!(SdkKind::IphoneOs.name(), "iphoneos");
}

#[test]
fn sdk_lookup_arguments() {
    assert_eq!(SDK_LOOKUP_TOOL, "xcrun");
    assert_eq!(
        SdkKind::MacOsx.lookup_args(),
        vec!["--sdk".to_string(), "macosx".to_string(), "--show-sdk-path".to_string()]
    );
    assert_eq!(
        SdkKind::IphoneSimulator.lookup_args(),
        vec!["--sdk".to_string(), "iphonesimulator".to_string(), "--show-sdk-path".to_string()]
    );
    assert_eq!(
        SdkKind::IphoneOs.lookup_args(),
        vec!["--sdk".to_string(), "iphoneos".to_string(), "--show-sdk-path".to_string()]
    );
}

#[test]
fn sdk_path_is_the_output_without_the_white_space_around_it() {
    assert_eq!(
        sdk_path("x86_64-apple-darwin", Some("/Applications/Xcode.app/SDKs/MacOSX.sdk\n")),
        Some("/Applications/Xcode.app/SDKs/MacOSX.sdk".to_string())
    );
    assert_eq!(
        sdk_path("aarch64-apple-ios", Some("  \t/sdks/iPhoneOS.sdk \r\n")),
        Some("/sdks/iPhoneOS.sdk".to_string())
    );
    assert_eq!(
        sdk_path("i386-apple-ios", Some("/sdks/iPhoneSimulator.sdk")),
        Some("/sdks/iPhoneSimulator.sdk".to_string())
    );
}

#[test]
fn sdk_path_of_a_triple_without_an_sdk_is_none() {
    assert_eq!(sdk_path("x86_64-unknown-linux-gnu", Some("/sdk\n")), None);
    assert_eq!(sdk_path("arm64-apple-ios", Some("/sdk\n")), None);
    assert_eq!(sdk_path("aarch64-linux-android", None), None);
}

#[test]
fn sdk_path_without_output_is_none() {
    assert_eq!(sdk_path("x86_64-apple-darwin", None), None);
}

#[test]
fn sdk_path_of_blank_output_is_empty() {
    assert_eq!(sdk_path("x86_64-apple-darwin", Some(" \n")), Some(String::new()));
}

#[test]
fn trimming_takes_the_white_space_off_both_ends() {
    assert_eq!(str_trimmed("/sdk\n"), "/sdk");
    assert_eq!(str_trimmed("  \t/sdk \r\n"), "/sdk");
    assert_eq!(str_trimmed("/sdk"), "/sdk");
    assert_eq!(str_trimmed("x "), "x");
    assert_eq!(str_trimmed(" x"), "x");
}

#[test]
fn trimming_keeps_the_white_space_inside() {
    assert_eq!(str_trimmed(" /my sdks/a b \n"), "/my sdks/a b");
}

#[test]
fn trimming_blank_text_leaves_nothing() {
    assert_eq!(str_trimmed(""), "");
    assert_eq!(str_trimmed(" "), "");
    assert_eq!(str_trimmed(" \n\t "), "");
}

#[test]
fn trimming_takes_unicode_white_space() {
    assert_eq!(str_trimmed("\u{2003}/s\u{e9}k\u{a0}"), "/s\u{e9}k");
    assert_eq!(str_trimmed("\u{2003}/sdk\u{a0}"), "\u{2003}/sdk\u{a0}".trim());
    assert_eq!(str_trimmed("\u{200b}/sdk"), "\u{200b}/sdk");
}
