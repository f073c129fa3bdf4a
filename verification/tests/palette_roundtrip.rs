use matugen_llava_seed::llava::extract_palette;
use matugen_llava_seed::palette::Palette;
use matugen_llava_seed::palette::palette_of_value;
use matugen_llava_seed::palette::parse_palette;

#[test]
fn parse_rejects_non_json() {
    assert!(parse_palette("this is not json").is_none());
    assert!(parse_palette("").is_none());
    assert!(parse_palette("{\"primary_hex\":").is_none());
}

#[test]
fn parse_rejects_json_non_object() {
    assert!(parse_palette("[1, 2, 3]").is_none());
    assert!(parse_palette("\"#AABBCC\"").is_none());
    assert!(parse_palette("42").is_none());
    assert!(parse_palette("null").is_none());
}

#[test]
fn parse_rejects_object_without_valid_roles() {
    assert!(parse_palette("{}").is_none());
    assert!(parse_palette("{\"foo\":\"#AABBCC\"}").is_none());
    assert!(parse_palette("{\"primary_hex\":\"nonsense\"}").is_none());
    assert!(parse_palette("{\"primary_hex\":7}").is_none());
    assert!(parse_palette("{\"primary_hex\":null}").is_none());
}

#[test]
fn parse_keeps_valid_roles_and_drops_the_rest() {
    let p = parse_palette(
        "{\"primary_hex\":\"#AABBCC\",\"accent1_hex\":\"#112233\",\"neutral1_hex\":\"bad\",\"other\":\"#445566\"}",
    )
    .expect("palette");
    assert_eq!(p.len(), 2);
    assert_eq!(p.primary.as_deref(), Some("#AABBCC"));
    assert_eq!(p.accent1.as_deref(), Some("#112233"));
    assert_eq!(p.neutral1, None);
}

#[test]
fn values_come_in_role_key_order() {
    let p = parse_palette(
        "{\"tertiary_hex\":\"#000001\",\"accent2_hex\":\"#000002\",\"primary_hex\":\"#000003\",\"neutral1_hex\":\"#000004\"}",
    )
    .expect("palette");
    let vals = p.values();
    assert_eq!(
        vals,
        vec![
            "#000002".to_string(),
            "#000004".to_string(),
            "#000003".to_string(),
            "#000001".to_string(),
        ],
    );
}

#[test]
fn serialize_then_reparse_gives_equal_palette() {
    let text = "{\"primary_hex\":\"#AABBCC\",\"secondary_hex\":\"#112233\",\"accent1_hex\":\"#778899\"}";
    let p = parse_palette(text).expect("palette");
    let rendered = p.palette_json();
    let p2 = parse_palette(&rendered).expect("reparsed palette");
    assert_eq!(p, p2);
    let rendered2 = p2.palette_json();
    assert_eq!(rendered, rendered2);
}

#[test]
fn structured_roundtrip_preserves_the_palette() {
    let p = parse_palette("{\"primary_hex\":\"#AABBCC\",\"tertiary_hex\":\"#445566\"}")
        .expect("palette");
    let v = p.to_json_value();
    let p2 = palette_of_value(&v).expect("round trip");
    assert_eq!(p, p2);
}

#[test]
fn serialized_palette_is_plain_json() {
    let p = parse_palette("{\"primary_hex\":\"#AABBCC\",\"neutral2_hex\":\"#0F0E0D\"}")
        .expect("palette");
    let rendered = p.palette_json();
    let reparsed: serde_json::Value = serde_json::from_str(&rendered).expect("valid json");
    let expected: serde_json::Value =
        serde_json::from_str("{\"neutral2_hex\":\"#0F0E0D\",\"primary_hex\":\"#AABBCC\"}")
            .expect("valid json");
    assert_eq!(reparsed, expected);
}

#[test]
fn empty_palette_serializes_to_empty_object() {
    let p = Palette::new();
    assert!(p.is_empty());
    assert_eq!(p.palette_json(), "{}");
    assert!(parse_palette("{}").is_none());
}

#[test]
fn extract_reads_raw_body_first() {
    let p = extract_palette("{\"primary_hex\":\"#AABBCC\"}").expect("palette");
    assert_eq!(p.primary.as_deref(), Some("#AABBCC"));
}

#[test]
fn extract_unwraps_response_envelope() {
    let body = "{\"model\":\"llava\",\"response\":\"{\\\"primary_hex\\\":\\\"#AABBCC\\\",\\\"accent1_hex\\\":\\\"#112233\\\"}\"}";
    let p = extract_palette(body).expect("palette");
    assert_eq!(p.len(), 2);
    assert_eq!(p.primary.as_deref(), Some("#AABBCC"));
}

#[test]
fn extract_rejects_unusable_envelopes() {
    assert!(extract_palette("{\"response\":\"no json here\"}").is_none());
    assert!(extract_palette("{\"response\":\"{}\"}").is_none());
    assert!(extract_palette("{\"response\":17}").is_none());
    assert!(extract_palette("{\"unrelated\":true}").is_none());
    assert!(extract_palette("plain text answer").is_none());
}
