use vstd::prelude::*;
use vstd::string::StringExecFns;
use crate::SeedError;
use crate::config::LlavaConfig;
use crate::json::JsonValue;
use crate::json::json_of;
use crate::json::lookup_str;
use crate::json::parse_json;
use crate::json::push_char;
use crate::json::spec_escape;
use crate::json::spec_hex_char;
use crate::json::spec_lookup;
use crate::json::append_escaped;
use crate::json::hex_char;
use crate::palette::Palette;
use crate::palette::PaletteView;
use crate::palette::palette_of_value;
use crate::palette::palette_view_opt;
use crate::palette::parse_palette;
use crate::palette::spec_parse_palette;
use crate::utils::dims_of;
use crate::utils::downscale_dims;
use crate::utils::spec_downscale_dims;

verus! {

/// The larger side allowed for the image that is sent to the model.
pub const MODEL_IMAGE_CAP: u32 = 1024;

/// The fixed instruction handed to the model, describing the exact JSON
/// schema its answer must take.
pub open spec fn spec_prompt() -> Seq<char> {
    "System: You are a wallpaper-to-UI theming assistant.\nUser: Analyze the attached image and respond ONLY with a JSON object in this exact schema:\n{\n  \"primary_hex\":\"#RRGGBB\",\n  \"secondary_hex\":\"#RRGGBB\",\n  \"tertiary_hex\":\"#RRGGBB\",\n  \"accent1_hex\":\"#RRGGBB\",\n  \"accent2_hex\":\"#RRGGBB\",\n  \"neutral1_hex\":\"#RRGGBB\",\n  \"neutral2_hex\":\"#RRGGBB\"\n}\nRules:\n- Every value must be a 7-character hex string like \"#82A3FF\".\n- Colors should be suitable for UI theming with good contrast.\n- Avoid neon extremes and near-grayscale tones.\n- Return only the JSON object, no extra text."@
}

/// The prompt as a string.
pub fn prompt_text() -> (r: &'static str)
    ensures
        r@ == spec_prompt(),
{
    "System: You are a wallpaper-to-UI theming assistant.\nUser: Analyze the attached image and respond ONLY with a JSON object in this exact schema:\n{\n  \"primary_hex\":\"#RRGGBB\",\n  \"secondary_hex\":\"#RRGGBB\",\n  \"tertiary_hex\":\"#RRGGBB\",\n  \"accent1_hex\":\"#RRGGBB\",\n  \"accent2_hex\":\"#RRGGBB\",\n  \"neutral1_hex\":\"#RRGGBB\",\n  \"neutral2_hex\":\"#RRGGBB\"\n}\nRules:\n- Every value must be a 7-character hex string like \"#82A3FF\".\n- Colors should be suitable for UI theming with good contrast.\n- Avoid neon extremes and near-grayscale tones.\n- Return only the JSON object, no extra text."
}

// ---------------------------------------------------------------------------
// Trusted wrappers: base64 and PNG encoding
// ---------------------------------------------------------------------------

/// The standard base64 encoding of a byte sequence; a function of the bytes
/// alone.
pub uninterp spec fn base64_of(bytes: Seq<u8>) -> Seq<char>;

/// Relies on base64's STANDARD engine: encoding is a pure function of the
/// input bytes.
#[verifier::external_body]
fn base64_encode(bytes: &Vec<u8>) -> (r: String)
    ensures
        r@ == base64_of(bytes@),
{
    base64::Engine::encode(&base64::engine::general_purpose::STANDARD, bytes.as_slice())
}

/// An image's bytes decoded and re-encoded as PNG, or `None` when they do
/// not decode; a function of the bytes alone.
pub uninterp spec fn png_of(bytes: Seq<u8>) -> Option<Seq<u8>>;

/// The image decoded, downscaled to fit within `w` by `h` keeping its aspect
/// ratio (a triangle filter), and re-encoded as PNG; a function of the
/// arguments alone.
pub uninterp spec fn resized_png_of(bytes: Seq<u8>, w: u32, h: u32) -> Option<Seq<u8>>;

/// Relies on image::load_from_memory and DynamicImage::write_to with the PNG
/// format: both deterministic in the bytes.
#[verifier::external_body]
fn encode_png(bytes: &Vec<u8>) -> (r: Option<Vec<u8>>)
    ensures
        r is Some <==> png_of(bytes@) is Some,
        r matches Some(v) ==> png_of(bytes@) == Some(v@),
{
    image::load_from_memory(bytes.as_slice()).ok().and_then(|img| {
        let mut cursor = std::io::Cursor::new(Vec::new());
        img.write_to(&mut cursor, image::ImageOutputFormat::Png).ok().map(|_| cursor.into_inner())
    })
}

/// Relies on image::load_from_memory, DynamicImage::resize with the triangle
/// filter, and write_to with the PNG format: all deterministic in the
/// arguments.
#[verifier::external_body]
fn encode_png_resized(bytes: &Vec<u8>, w: u32, h: u32) -> (r: Option<Vec<u8>>)
    ensures
        r is Some <==> resized_png_of(bytes@, w, h) is Some,
        r matches Some(v) ==> resized_png_of(bytes@, w, h) == Some(v@),
{
    image::load_from_memory(bytes.as_slice()).ok().and_then(|img| {
        let small = img.resize(w, h, image::imageops::FilterType::Triangle);
        let mut cursor = std::io::Cursor::new(Vec::new());
        small.write_to(&mut cursor, image::ImageOutputFormat::Png).ok().map(
            |_| cursor.into_inner(),
        )
    })
}

// ---------------------------------------------------------------------------
// Rendering the request
// ---------------------------------------------------------------------------

/// The decimal digits of a number.
pub open spec fn spec_decimal(n: int) -> Seq<char>
    decreases n,
{
    if n < 10 {
        seq![spec_hex_char(n)]
    } else {
        spec_decimal(n / 10).push(spec_hex_char(n % 10))
    }
}

/// Writes a number in decimal.
pub fn u32_decimal(n: u32) -> (r: String)
    ensures
        r@ == spec_decimal(n as int),
    decreases n,
{
    if n < 10 {
        let mut s = String::new();
        push_char(&mut s, hex_char(n));
        proof {
            assert(s@ =~= spec_decimal(n as int));
        }
        s
    } else {
        let mut s = u32_decimal(n / 10);
        push_char(&mut s, hex_char(n % 10));
        s
    }
}

/// A temperature carried in thousandths, written as a decimal fraction with
/// three digits after the point.
pub open spec fn spec_temp_text(milli: u32) -> Seq<char> {
    spec_decimal(milli as int / 1000) + seq!['.'] + seq![
        spec_hex_char((milli as int / 100) % 10),
        spec_hex_char((milli as int / 10) % 10),
        spec_hex_char(milli as int % 10),
    ]
}

fn temp_text(milli: u32) -> (r: String)
    ensures
        r@ == spec_temp_text(milli),
{
    let mut s = u32_decimal(milli / 1000);
    push_char(&mut s, '.');
    push_char(&mut s, hex_char((milli / 100) % 10));
    push_char(&mut s, hex_char((milli / 10) % 10));
    push_char(&mut s, hex_char(milli % 10));
    proof {
        assert(s@ =~= spec_temp_text(milli));
    }
    s
}

/// The JSON body of one model request: the model id, the fixed prompt, the
/// base64 image, no streaming, and the temperature.
pub open spec fn spec_query_body(model: Seq<char>, b64: Seq<char>, temp_milli: u32) -> Seq<char> {
    "{\"model\":\""@ + spec_escape(model) + "\",\"prompt\":\""@ + spec_escape(spec_prompt())
        + "\",\"images\":[\""@ + spec_escape(b64) + "\"],\"stream\":false,\"options\":{\"temperature\":"@
        + spec_temp_text(temp_milli) + "}}"@
}

fn build_body(model: &str, b64: &str, temp_milli: u32) -> (r: String)
    ensures
        r@ == spec_query_body(model@, b64@, temp_milli),
{
    let mut out = String::new();
    out.append("{\"model\":\"");
    append_escaped(&mut out, model);
    out.append("\",\"prompt\":\"");
    append_escaped(&mut out, prompt_text());
    out.append("\",\"images\":[\"");
    append_escaped(&mut out, b64);
    out.append("\"],\"stream\":false,\"options\":{\"temperature\":");
    let t = temp_text(temp_milli);
    out.append(t.as_str());
    out.append("}}");
    proof {
        assert(out@ =~= spec_query_body(model@, b64@, temp_milli));
    }
    out
}

/// The PNG bytes sent to the model: the image re-encoded as is when both
/// sides fit within the cap, else downscaled so the larger side meets the
/// cap first.
pub open spec fn spec_model_png(b: Seq<u8>) -> Option<Seq<u8>> {
    match dims_of(b) {
        None => None,
        Some(d) => {
            if d.0 == 0 || d.1 == 0 {
                None
            } else if d.0 <= MODEL_IMAGE_CAP && d.1 <= MODEL_IMAGE_CAP {
                png_of(b)
            } else {
                let nd = spec_downscale_dims(d.0, d.1, MODEL_IMAGE_CAP);
                resized_png_of(b, nd.0, nd.1)
            }
        },
    }
}

/// One prepared request: where to send it, what to send, and how long to
/// wait.
#[derive(Clone, Debug)]
pub struct ModelQuery {
    pub url: String,
    pub body: String,
    pub timeout_ms: u64,
}

/// The generate endpoint under the configured base URL.
pub open spec fn spec_query_url(endpoint: Seq<char>) -> Seq<char> {
    endpoint + "/api/generate"@
}

/// Builds the model request for an image: downscale, encode to PNG, base64,
/// and wrap in the JSON body. Fails with a decode error exactly when the
/// image bytes cannot be turned into a PNG for the model.
pub fn prepare_query(cfg: &LlavaConfig, image_bytes: &Vec<u8>) -> (r: Result<ModelQuery, SeedError>)
    ensures
        (r is Ok) == (spec_model_png(image_bytes@) is Some),
        r matches Ok(q) ==> (spec_model_png(image_bytes@) matches Some(png) && q.url@
            == spec_query_url(cfg.endpoint@) && q.body@ == spec_query_body(
            cfg.model@,
            base64_of(png),
            cfg.temperature_milli,
        ) && q.timeout_ms == cfg.timeout_ms),
        r matches Err(e) ==> e == SeedError::Decode,
{
    let dims = match crate::utils::image_dims(image_bytes) {
        None => { return Err(SeedError::Decode); },
        Some(d) => d,
    };
    if dims.0 == 0 || dims.1 == 0 {
        return Err(SeedError::Decode);
    }
    let png = if dims.0 <= MODEL_IMAGE_CAP && dims.1 <= MODEL_IMAGE_CAP {
        encode_png(image_bytes)
    } else {
        let nd = downscale_dims(dims.0, dims.1, MODEL_IMAGE_CAP);
        encode_png_resized(image_bytes, nd.0, nd.1)
    };
    let png = match png {
        None => { return Err(SeedError::Decode); },
        Some(v) => v,
    };
    let b64 = base64_encode(&png);
    let body = build_body(cfg.model.as_str(), b64.as_str(), cfg.temperature_milli);
    let mut url = cfg.endpoint.clone();
    url.append("/api/generate");
    Ok(ModelQuery { url, body, timeout_ms: cfg.timeout_ms })
}

// ---------------------------------------------------------------------------
// Reading the response
// ---------------------------------------------------------------------------

/// The tolerant two-stage reading of a model response: first the raw body as
/// a palette document, then — if that gives nothing — the body as an
/// envelope whose `response` text is read as a palette document in turn.
pub open spec fn spec_extract_palette(text: Seq<char>) -> Option<PaletteView> {
    match spec_parse_palette(text) {
        Some(pv) => Some(pv),
        None => match json_of(text) {
            Some(JsonValue::Object(ms)) => match spec_lookup(ms@, "response"@) {
                Some(JsonValue::Str(s)) => spec_parse_palette(s@),
                _ => None,
            },
            _ => None,
        },
    }
}

/// Reads a palette out of one model response, trying the raw body first and
/// the `response` envelope field second.
pub fn extract_palette(text: &str) -> (r: Option<Palette>)
    ensures
        palette_view_opt(r) == spec_extract_palette(text@),
        r matches Some(p) ==> p@.wf() && !p@.is_empty(),
{
    match parse_json(text) {
        None => None,
        Some(v) => {
            match palette_of_value(&v) {
                Some(p) => Some(p),
                None => match &v {
                    JsonValue::Object(ms) => match lookup_str(ms, "response") {
                        Some(s) => parse_palette(s.as_str()),
                        None => None,
                    },
                    _ => None,
                },
            }
        },
    }
}

// ---------------------------------------------------------------------------
// The query protocol
// ---------------------------------------------------------------------------

/// The state of one model query: how many responses have been consumed.
/// The protocol allows at most two.
#[derive(Clone, Copy, Debug, PartialEq, Eq, Structural)]
pub struct QuerySession {
    pub attempts: u8,
}

/// What one response leads to.
#[derive(Debug, PartialEq, Eq)]
pub enum QueryOutcome {
    /// A palette was read out of the response.
    Success(Palette),
    /// The response was unusable and one retry is still allowed.
    Retry,
    /// The response was unusable and the retry budget is spent.
    Failed,
}

impl QuerySession {
    /// A fresh query: no response consumed yet.
    pub fn start() -> (r: QuerySession)
        ensures
            r.attempts == 0,
    {
        QuerySession { attempts: 0 }
    }

    /// A transport-level failure ends the query at once — transport errors
    /// are never retried.
    pub fn on_transport_error(self) -> (r: SeedError)
        ensures
            r == SeedError::Network,
    {
        SeedError::Network
    }

    /// Consumes one response. A response that yields a palette succeeds; an
    /// unusable first response asks for exactly one retry; an unusable
    /// second response ends the query for good.
    pub fn on_response(self, text: &str) -> (r: (QuerySession, QueryOutcome))
        requires
            self.attempts < 2,
        ensures
            r.0.attempts == self.attempts + 1,
            (r.1 is Success) == (spec_extract_palette(text@) is Some),
            r.1 matches QueryOutcome::Success(p) ==> spec_extract_palette(text@) == Some(p@)
                && p@.wf() && !p@.is_empty(),
            spec_extract_palette(text@) is None && self.attempts == 0 ==> r.1
                == QueryOutcome::Retry,
            spec_extract_palette(text@) is None && self.attempts == 1 ==> r.1
                == QueryOutcome::Failed,
    {
        let next = QuerySession { attempts: self.attempts + 1 };
        match extract_palette(text) {
            Some(p) => (next, QueryOutcome::Success(p)),
            None => {
                if self.attempts == 0 {
                    (next, QueryOutcome::Retry)
                } else {
                    (next, QueryOutcome::Failed)
                }
            },
        }
    }
}

} // verus!
