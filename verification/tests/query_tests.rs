use matugen_llava_seed::SeedError;
use matugen_llava_seed::config::LlavaConfig;
use matugen_llava_seed::llava::QueryOutcome;
use matugen_llava_seed::llava::QuerySession;
use matugen_llava_seed::llava::prepare_query;
use matugen_llava_seed::utils::hash_bytes;

fn png_bytes(w: u32, h: u32, rgb: [u8; 3]) -> Vec<u8> {
    let img = image::RgbImage::from_pixel(w, h, image::Rgb(rgb));
    let dynimg = image::DynamicImage::ImageRgb8(img);
    let mut cursor = std::io::Cursor::new(Vec::new());
    dynimg
        .write_to(&mut cursor, image::ImageOutputFormat::Png)
        .expect("png encodes");
    cursor.into_inner()
}

fn images_value(body: &str) -> String {
    let marker = "\"images\":[\"";
    let start = body.find(marker).expect("images field present") + marker.len();
    let rest = &body[start..];
    let end = rest.find('"').expect("closing quote");
    rest[..end].to_string()
}

#[test]
fn query_body_has_the_documented_shape() {
    let cfg = LlavaConfig::default();
    let bytes = png_bytes(3, 3, [1, 2, 3]);
    let q = prepare_query(&cfg, &bytes).expect("query built");
    assert_eq!(q.url, "http://127.0.0.1:11434/api/generate");
    assert_eq!(q.timeout_ms, 3500);
    assert!(q.body.starts_with("{\"model\":\"llava:latest\",\"prompt\":\""));
    assert!(q.body.contains("\"stream\":false"));
    assert!(q.body.ends_with("\"options\":{\"temperature\":0.100}}"));
    let parsed: serde_json::Value = serde_json::from_str(&q.body).expect("body is valid json");
    assert_eq!(parsed["model"], serde_json::Value::String("llava:latest".to_string()));
    assert!(parsed["prompt"].as_str().expect("prompt").contains("primary_hex"));
}

#[test]
fn query_image_survives_base64_and_png() {
    let cfg = LlavaConfig::default();
    let bytes = png_bytes(5, 4, [9, 8, 7]);
    let q = prepare_query(&cfg, &bytes).expect("query built");
    let b64 = images_value(&q.body);
    let png = base64::Engine::decode(&base64::engine::general_purpose::STANDARD, &b64)
        .expect("valid base64");
    let img = image::load_from_memory(&png).expect("valid png");
    assert_eq!(image::GenericImageView::dimensions(&img), (5, 4));
}

#[test]
fn oversized_query_image_is_downscaled() {
    let cfg = LlavaConfig::default();
    let bytes = png_bytes(1300, 650, [50, 60, 70]);
    let q = prepare_query(&cfg, &bytes).expect("query built");
    let b64 = images_value(&q.body);
    let png = base64::Engine::decode(&base64::engine::general_purpose::STANDARD, &b64)
        .expect("valid base64");
    let img = image::load_from_memory(&png).expect("valid png");
    assert_eq!(image::GenericImageView::dimensions(&img), (1024, 512));
}

#[test]
fn undecodable_image_fails_with_decode_error() {
    let cfg = LlavaConfig::default();
    let r = prepare_query(&cfg, &vec![0, 1, 2, 3]);
    assert_eq!(r.err(), Some(SeedError::Decode));
}

#[test]
fn retry_scenario_second_response_succeeds() {
    let s = QuerySession::start();
    let (s, o1) = s.on_response("gibberish the model made up");
    assert_eq!(o1, QueryOutcome::Retry);
    let (s, o2) = s.on_response("{\"primary_hex\":\"#AABBCC\"}");
    match o2 {
        QueryOutcome::Success(p) => {
            assert_eq!(p.primary.as_deref(), Some("#AABBCC"));
        },
        other => panic!("expected a palette, got {:?}", other),
    }
    assert_eq!(s.attempts, 2);
}

#[test]
fn two_unusable_responses_exhaust_the_budget() {
    let s = QuerySession::start();
    let (s, o1) = s.on_response("{}");
    assert_eq!(o1, QueryOutcome::Retry);
    let (s, o2) = s.on_response("still nothing");
    assert_eq!(o2, QueryOutcome::Failed);
    assert_eq!(s.attempts, 2);
}

#[test]
fn first_usable_response_needs_no_retry() {
    let s = QuerySession::start();
    let (s, o) = s.on_response("{\"response\":\"{\\\"neutral2_hex\\\":\\\"#0A0B0C\\\"}\"}");
    assert!(matches!(o, QueryOutcome::Success(_)));
    assert_eq!(s.attempts, 1);
}

#[test]
fn transport_failures_are_not_retried() {
    let s = QuerySession::start();
    assert_eq!(s.on_transport_error(), SeedError::Network);
}

#[test]
fn content_hash_of_nothing_is_the_known_digest() {
    assert_eq!(
        hash_bytes(&Vec::new()),
        "e3b0c44298fc1c149afbf4c8996fb92427ae41e4649b934ca495991b7852b855",
    );
}

#[test]
fn content_hash_matches_an_independent_computation() {
    let bytes: Vec<u8> = vec![1, 2, 3, 250];
    let digest = <sha2::Sha256 as sha2::Digest>::digest(&bytes);
    let mut expected = String::new();
    for b in digest {
        expected.push_str(&format!("{:02x}", b));
    }
    assert_eq!(hash_bytes(&bytes), expected);
}
