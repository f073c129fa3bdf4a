use matugen_llava_seed::SeedError;
use matugen_llava_seed::needs_luminance;
use matugen_llava_seed::resolve_mode;
use matugen_llava_seed::utils::Mode;
use matugen_llava_seed::utils::ModeSetting;
use matugen_llava_seed::utils::decide_mode;
use matugen_llava_seed::utils::expand_tilde;
use matugen_llava_seed::utils::validate_hex;

#[test]
fn hex_accepts_lower_and_upper_case() {
    assert!(validate_hex("#abcdef"));
    assert!(validate_hex("#ABCDEF"));
    assert!(validate_hex("#a1B2c3"));
    assert!(validate_hex("#000000"));
    assert!(validate_hex("#999999"));
}

#[test]
fn hex_rejects_wrong_length() {
    assert!(!validate_hex(""));
    assert!(!validate_hex("#"));
    assert!(!validate_hex("#12345"));
    assert!(!validate_hex("#1234567"));
}

#[test]
fn hex_rejects_missing_hash() {
    assert!(!validate_hex("1234567"));
    assert!(!validate_hex("x123456"));
}

#[test]
fn hex_rejects_bad_characters() {
    assert!(!validate_hex("#12G45F"));
    assert!(!validate_hex("#12345 "));
    assert!(!validate_hex("# 12345"));
    assert!(!validate_hex("#12-45F"));
}

#[test]
fn mode_exact_half_is_light() {
    assert_eq!(decide_mode(500000), Mode::Light);
}

#[test]
fn mode_just_below_half_is_dark() {
    assert_eq!(decide_mode(499990), Mode::Dark);
    assert_eq!(decide_mode(499999), Mode::Dark);
}

#[test]
fn mode_setting_names_parse() {
    assert_eq!(ModeSetting::from_name("auto"), Some(ModeSetting::Auto));
    assert_eq!(ModeSetting::from_name("dark"), Some(ModeSetting::Dark));
    assert_eq!(ModeSetting::from_name("light"), Some(ModeSetting::Light));
    assert_eq!(ModeSetting::from_name("banana"), None);
    assert_eq!(ModeSetting::from_name(""), None);
}

#[test]
fn resolve_mode_override_wins_over_default() {
    let r = resolve_mode(&Some(ModeSetting::Dark), ModeSetting::Light, None);
    assert_eq!(r, Some(Mode::Dark));
    let r = resolve_mode(&Some(ModeSetting::Light), ModeSetting::Dark, None);
    assert_eq!(r, Some(Mode::Light));
}

#[test]
fn resolve_mode_auto_goes_by_luminance() {
    assert_eq!(resolve_mode(&None, ModeSetting::Auto, Some(700000)), Some(Mode::Light));
    assert_eq!(resolve_mode(&None, ModeSetting::Auto, Some(200000)), Some(Mode::Dark));
    assert_eq!(resolve_mode(&None, ModeSetting::Auto, None), None);
}

#[test]
fn luminance_needed_only_for_auto() {
    assert!(needs_luminance(&None, ModeSetting::Auto));
    assert!(needs_luminance(&Some(ModeSetting::Auto), ModeSetting::Dark));
    assert!(!needs_luminance(&Some(ModeSetting::Dark), ModeSetting::Auto));
    assert!(!needs_luminance(&None, ModeSetting::Light));
}

#[test]
fn tilde_expansion() {
    assert_eq!(expand_tilde("~/pics/wall.png", "/home/u"), "/home/u/pics/wall.png");
    assert_eq!(expand_tilde("~//x", "/home/u"), "/home/u/x");
    assert_eq!(expand_tilde("~", "/home/u"), "/home/u/");
    assert_eq!(expand_tilde("/abs/path", "/home/u"), "/abs/path");
    assert_eq!(expand_tilde("rel/path", "/home/u"), "rel/path");
}

#[test]
fn error_messages() {
    assert_eq!(SeedError::Decode.message(), "image cannot be opened or decoded");
    assert_eq!(SeedError::Network.message(), "llava request failed");
    assert_eq!(SeedError::UnusableResponse.message(), "llava returned unusable data");
    assert_eq!(SeedError::CacheIo.message(), "cache file cannot be read or written");
    assert_eq!(SeedError::Render.message(), "matugen failed");
}
