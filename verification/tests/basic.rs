use matugen_llava_seed::palette::parse_palette;
use matugen_llava_seed::utils::decide_mode;
use matugen_llava_seed::utils::validate_hex;

#[test]
fn test_hex_validator() {
    assert!(validate_hex("#A1B2C3"));
    assert!(!validate_hex("123456"));
}

#[test]
fn test_parse_palette() {
    let json = "{\"primary_hex\":\"#AABBCC\",\"secondary_hex\":\"#112233\",\"tertiary_hex\":\"#445566\",\"accent1_hex\":\"#778899\",\"accent2_hex\":\"#ABCDEF\",\"neutral1_hex\":\"#123456\",\"neutral2_hex\":\"#654321\"}";
    let palette = parse_palette(json).expect("palette");
    assert_eq!(palette.len(), 7);
    for color in palette.values() {
        assert!(validate_hex(&color));
    }
}

#[test]
fn test_decide_mode() {
    assert_eq!(decide_mode(300000).as_str(), "dark");
    assert_eq!(decide_mode(700000).as_str(), "light");
}
