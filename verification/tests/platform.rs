use betsure_dialer::platform::{BuildConfig, Profile, Target};

#[test]
fn desktop_systems_are_desktop_targets() {
    assert_eq!(Target::for_os("linux"), Target::Desktop);
    assert_eq!(Target::for_os("macos"), Target::Desktop);
    assert_eq!(Target::for_os("windows"), Target::Desktop);
    assert_eq!(Target::for_os("freebsd"), Target::Desktop);
}

#[test]
fn android_and_ios_are_mobile_targets() {
    assert_eq!(Target::for_os("android"), Target::Mobile);
    assert_eq!(Target::for_os("ios"), Target::Mobile);
}

#[test]
fn system_names_are_matched_exactly() {
    assert_eq!(Target::for_os(""), Target::Desktop);
    assert_eq!(Target::for_os("io"), Target::Desktop);
    assert_eq!(Target::for_os("iOS"), Target::Desktop);
    assert_eq!(Target::for_os("Android"), Target::Desktop);
    assert_eq!(Target::for_os("androids"), Target::Desktop);
    assert_eq!(Target::for_os("andro\u{ef}d"), Target::Desktop);
    assert_eq!(Target::for_os("i\u{f6}s"), Target::Desktop);
}

#[test]
fn debug_assertions_make_a_debug_profile() {
    assert_eq!(Profile::for_build(true), Profile::Debug);
    assert_eq!(Profile::for_build(false), Profile::Release);
}

#[test]
fn configurations_compare_by_their_fields() {
    let config = BuildConfig { target: Target::Desktop, profile: Profile::Debug };
    assert_eq!(config, BuildConfig { target: Target::Desktop, profile: Profile::Debug });
    assert_ne!(config, BuildConfig { target: Target::Mobile, profile: Profile::Debug });
    assert_ne!(config, BuildConfig { target: Target::Desktop, profile: Profile::Release });
}
