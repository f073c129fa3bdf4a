use matugen_llava_seed::cache::Cache;
use matugen_llava_seed::palette::parse_palette;

fn sample_palette() -> matugen_llava_seed::palette::Palette {
    parse_palette("{\"primary_hex\":\"#AABBCC\",\"accent1_hex\":\"#112233\"}").expect("palette")
}

#[test]
fn cache_roundtrip_returns_equal_palette() {
    let mut c = Cache::new();
    let p = sample_palette();
    c.put("h1".to_string(), p.clone());
    let got = c.get("h1", false).expect("cache hit");
    assert_eq!(got, &p);
}

#[test]
fn cache_miss_on_unknown_hash() {
    let mut c = Cache::new();
    c.put("h1".to_string(), sample_palette());
    assert!(c.get("h2", false).is_none());
}

#[test]
fn forced_lookup_ignores_stored_palette() {
    let mut c = Cache::new();
    let p = sample_palette();
    c.put("h1".to_string(), p);
    assert!(c.get("h1", true).is_none());
    assert!(c.get("h1", false).is_some());
}

#[test]
fn cache_put_overwrites_existing_entry() {
    let mut c = Cache::new();
    c.put("h1".to_string(), sample_palette());
    let p2 = parse_palette("{\"neutral1_hex\":\"#445566\"}").expect("palette");
    c.put("h1".to_string(), p2.clone());
    assert_eq!(c.get("h1", false), Some(&p2));
    assert_eq!(c.entries.len(), 1);
}

#[test]
fn cache_survives_json_roundtrip() {
    let mut c = Cache::new();
    let p = sample_palette();
    c.put("aa11".to_string(), p.clone());
    let p2 = parse_palette("{\"secondary_hex\":\"#0F0E0D\"}").expect("palette");
    c.put("bb22".to_string(), p2.clone());
    let text = c.to_json();
    let back = Cache::from_json(&text).expect("cache parses");
    assert_eq!(back.get("aa11", false), Some(&p));
    assert_eq!(back.get("bb22", false), Some(&p2));
    assert!(back.get("cc33", false).is_none());
}

#[test]
fn cache_escapes_unusual_keys() {
    let mut c = Cache::new();
    let p = sample_palette();
    c.put("a\"b\\c\nd".to_string(), p.clone());
    let text = c.to_json();
    let value: serde_json::Value = serde_json::from_str(&text).expect("valid json");
    assert!(value.is_object());
    let back = Cache::from_json(&text).expect("cache parses");
    assert_eq!(back.get("a\"b\\c\nd", false), Some(&p));
}

#[test]
fn legacy_single_string_entries_are_dropped() {
    let text = "{\"h1\":\"#AABBCC\",\"h2\":{\"primary_hex\":\"#112233\"}}";
    let c = Cache::from_json(text).expect("cache parses");
    assert!(c.get("h1", false).is_none());
    let p = c.get("h2", false).expect("palette entry kept");
    assert_eq!(p.primary.as_deref(), Some("#112233"));
}

#[test]
fn unusable_cache_text_is_refused() {
    assert!(Cache::from_json("not json at all").is_none());
    assert!(Cache::from_json("[1, 2]").is_none());
    assert!(Cache::from_json("\"x\"").is_none());
}

#[test]
fn empty_cache_renders_and_reloads() {
    let c = Cache::new();
    assert_eq!(c.to_json(), "{}");
    let back = Cache::from_json("{}").expect("cache parses");
    assert!(back.get("h", false).is_none());
}
