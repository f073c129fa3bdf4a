use vstd::prelude::*;
use vstd::string::StrSliceExecFns;
use vstd::string::StringExecFns;
use vstd::arithmetic::div_mod::lemma_div_by_multiple;
use vstd::arithmetic::div_mod::lemma_div_is_ordered;
use vstd::arithmetic::mul::lemma_mul_inequality;
use vstd::arithmetic::mul::lemma_mul_upper_bound;

verus! {

// ---------------------------------------------------------------------------
// Hex color validation
// ---------------------------------------------------------------------------

/// True exactly when `c` is a hexadecimal digit, upper or lower case.
pub open spec fn is_hex_digit(c: char) -> bool {
    ('0' <= c && c <= '9') || ('a' <= c && c <= 'f') || ('A' <= c && c <= 'F')
}

/// The exact shape of a seed color: `#` followed by six hexadecimal digits.
pub open spec fn is_hex_color(s: Seq<char>) -> bool {
    s.len() == 7 && s[0] == '#' && (forall|i: int| 1 <= i < 7 ==> is_hex_digit(s[i]))
}

/// Executable check that a character is a hexadecimal digit.
pub fn hex_digit(c: char) -> (r: bool)
    ensures
        r == is_hex_digit(c),
{
    ('0' <= c && c <= '9') || ('a' <= c && c <= 'f') || ('A' <= c && c <= 'F')
}

/// Accepts exactly the strings of the form `#` + six hexadecimal digits.
pub fn validate_hex(hex: &str) -> (r: bool)
    ensures
        r == is_hex_color(hex@),
{
    let n = hex.unicode_len();
    if n != 7 {
        return false;
    }
    if hex.get_char(0) != '#' {
        return false;
    }
    let mut i: usize = 1;
    while i < 7
        invariant
            1 <= i <= 7,
            hex@.len() == 7,
            hex@[0] == '#',
            forall|j: int| 1 <= j < i ==> is_hex_digit(hex@[j]),
        decreases 7 - i,
    {
        if !hex_digit(hex.get_char(i)) {
            return false;
        }
        i = i + 1;
    }
    true
}

// ---------------------------------------------------------------------------
// String equality
// ---------------------------------------------------------------------------

/// Character-by-character equality of two string slices.
pub fn str_eq(a: &str, b: &str) -> (r: bool)
    ensures
        r == (a@ == b@),
{
    let la = a.unicode_len();
    let lb = b.unicode_len();
    if la != lb {
        return false;
    }
    let mut i: usize = 0;
    while i < la
        invariant
            0 <= i <= la,
            la == a@.len(),
            la == b@.len(),
            forall|j: int| 0 <= j < i ==> a@[j] == b@[j],
        decreases la - i,
    {
        if a.get_char(i) != b.get_char(i) {
            return false;
        }
        i = i + 1;
    }
    proof {
        assert(a@ =~= b@);
    }
    true
}

// ---------------------------------------------------------------------------
// Render mode
// ---------------------------------------------------------------------------

/// A mode as it may be requested: `Auto` still has to be resolved against the
/// image's luminance before anything is rendered.
#[derive(Clone, Copy, Debug, PartialEq, Eq, Structural)]
pub enum ModeSetting {
    Auto,
    Dark,
    Light,
}

/// A fully resolved mode; `Auto` can never reach the renderer.
#[derive(Clone, Copy, Debug, PartialEq, Eq, Structural)]
pub enum Mode {
    Dark,
    Light,
}

impl Mode {
    /// The name under which the mode is passed to the renderer.
    pub fn as_str(&self) -> (r: &'static str)
        ensures
            *self == Mode::Dark ==> r@ == "dark"@,
            *self == Mode::Light ==> r@ == "light"@,
    {
        match self {
            Mode::Dark => "dark",
            Mode::Light => "light",
        }
    }
}

impl ModeSetting {
    /// The name of the setting as it is written in a configuration file.
    pub fn as_str(&self) -> (r: &'static str)
        ensures
            *self == ModeSetting::Auto ==> r@ == "auto"@,
            *self == ModeSetting::Dark ==> r@ == "dark"@,
            *self == ModeSetting::Light ==> r@ == "light"@,
    {
        match self {
            ModeSetting::Auto => "auto",
            ModeSetting::Dark => "dark",
            ModeSetting::Light => "light",
        }
    }

    /// Reads a mode setting from its textual name; anything but the three
    /// recognized names is rejected.
    pub fn from_name(s: &str) -> (r: Option<ModeSetting>)
        ensures
            s@ == "auto"@ ==> r == Some(ModeSetting::Auto),
            s@ == "dark"@ ==> r == Some(ModeSetting::Dark),
            s@ == "light"@ ==> r == Some(ModeSetting::Light),
            s@ != "auto"@ && s@ != "dark"@ && s@ != "light"@ ==> r is None,
    {
        proof {
            reveal_strlit("auto");
            reveal_strlit("dark");
            reveal_strlit("light");
            assert("auto"@[0] == 'a' && "dark"@[0] == 'd' && "light"@[0] == 'l');
        }
        if str_eq(s, "auto") {
            Some(ModeSetting::Auto)
        } else if str_eq(s, "dark") {
            Some(ModeSetting::Dark)
        } else if str_eq(s, "light") {
            Some(ModeSetting::Light)
        } else {
            None
        }
    }
}

/// Luminance values are carried as parts per million of full brightness, so
/// `0` is pure black and `LUMINANCE_UNIT` is pure white.
pub const LUMINANCE_UNIT: u32 = 1000000;

/// Dark below half brightness, light at half brightness and above.
pub open spec fn spec_decide_mode(lum_ppm: u32) -> Mode {
    if lum_ppm < 500000 {
        Mode::Dark
    } else {
        Mode::Light
    }
}

/// Maps a luminance (in parts per million) to a mode: strictly below one half
/// is dark, one half and above is light, so exact half brightness resolves to
/// light.
pub fn decide_mode(lum_ppm: u32) -> (m: Mode)
    ensures
        m == spec_decide_mode(lum_ppm),
        (m == Mode::Light) <==> lum_ppm >= 500000,
{
    if lum_ppm < 500000 {
        Mode::Dark
    } else {
        Mode::Light
    }
}

// ---------------------------------------------------------------------------
// Average luminance
// ---------------------------------------------------------------------------

/// Scaled luminance of one pixel: the usual linear-space weights 0.2126,
/// 0.7152 and 0.0722, scaled by 10000 so the computation is exact.
/// Ranges over 0 ..= 2550000.
pub open spec fn pixel_luminance(p: (u8, u8, u8)) -> int {
    2126 * (p.0 as int) + 7152 * (p.1 as int) + 722 * (p.2 as int)
}

/// Sum of the scaled luminances of a sequence of pixels.
pub open spec fn luminance_sum(s: Seq<(u8, u8, u8)>) -> int
    decreases s.len(),
{
    if s.len() == 0 {
        0
    } else {
        luminance_sum(s.drop_last()) + pixel_luminance(s.last())
    }
}

/// The mean luminance of a pixel sequence, in parts per million of full
/// brightness.
pub open spec fn spec_average_luminance(s: Seq<(u8, u8, u8)>) -> int {
    luminance_sum(s) * 1000000 / (s.len() as int * 2550000)
}

proof fn lemma_luminance_sum_bounds(s: Seq<(u8, u8, u8)>)
    ensures
        0 <= luminance_sum(s) <= s.len() * 2550000,
    decreases s.len(),
{
    if s.len() > 0 {
        lemma_luminance_sum_bounds(s.drop_last());
    }
}

/// The mean of the scaled per-pixel luminances, exactly.
pub fn average_luminance_of(pixels: &Vec<(u8, u8, u8)>) -> (r: u32)
    requires
        pixels.len() > 0,
    ensures
        r == spec_average_luminance(pixels@),
        r <= LUMINANCE_UNIT,
{
    let mut total: u128 = 0;
    let mut i: usize = 0;
    while i < pixels.len()
        invariant
            0 <= i <= pixels@.len(),
            total == luminance_sum(pixels@.take(i as int)),
            total <= (i as int) * 2550000,
        decreases pixels@.len() - i,
    {
        let p = pixels[i];
        let pl: u64 = 2126 * (p.0 as u64) + 7152 * (p.1 as u64) + 722 * (p.2 as u64);
        proof {
            assert(pixels@.take(i + 1).drop_last() =~= pixels@.take(i as int));
            assert(pixels@.take(i + 1).last() == pixels@[i as int]);
        }
        total = total + (pl as u128);
        i = i + 1;
    }
    proof {
        assert(pixels@.take(pixels@.len() as int) =~= pixels@);
    }
    let denom: u128 = (pixels.len() as u128) * 2550000;
    let num: u128 = total * 1000000;
    let q: u128 = num / denom;
    proof {
        let d = denom as int;
        assert(num as int <= d * 1000000) by {
            assert(total as int <= d);
        }
        lemma_div_is_ordered(num as int, d * 1000000, d);
        lemma_div_by_multiple(1000000, d);
    }
    q as u32
}

/// Pointwise brighter pixels never lower the average luminance: if every
/// channel of every pixel of `a` is at most the matching channel of `b`, the
/// mean luminance of `a` is at most that of `b`.
pub proof fn lemma_luminance_monotonic(a: Seq<(u8, u8, u8)>, b: Seq<(u8, u8, u8)>)
    requires
        a.len() == b.len(),
        a.len() > 0,
        forall|i: int|
            0 <= i < a.len() ==> a[i].0 <= b[i].0 && a[i].1 <= b[i].1 && a[i].2 <= b[i].2,
    ensures
        spec_average_luminance(a) <= spec_average_luminance(b),
{
    lemma_luminance_sum_monotonic(a, b);
    lemma_div_is_ordered(
        luminance_sum(a) * 1000000,
        luminance_sum(b) * 1000000,
        a.len() as int * 2550000,
    );
}

proof fn lemma_luminance_sum_monotonic(a: Seq<(u8, u8, u8)>, b: Seq<(u8, u8, u8)>)
    requires
        a.len() == b.len(),
        forall|i: int|
            0 <= i < a.len() ==> a[i].0 <= b[i].0 && a[i].1 <= b[i].1 && a[i].2 <= b[i].2,
    ensures
        luminance_sum(a) <= luminance_sum(b),
    decreases a.len(),
{
    if a.len() > 0 {
        assert(forall|i: int|
            0 <= i < a.drop_last().len()
                ==> a.drop_last()[i].0 <= b.drop_last()[i].0 && a.drop_last()[i].1
                <= b.drop_last()[i].1 && a.drop_last()[i].2 <= b.drop_last()[i].2);
        lemma_luminance_sum_monotonic(a.drop_last(), b.drop_last());
    }
}

/// A sequence of pure white pixels averages to exactly full brightness.
pub proof fn lemma_luminance_white(s: Seq<(u8, u8, u8)>)
    requires
        s.len() > 0,
        forall|i: int| 0 <= i < s.len() ==> s[i] == ((255u8, 255u8, 255u8)),
    ensures
        spec_average_luminance(s) == LUMINANCE_UNIT,
{
    lemma_luminance_sum_constant(s);
    let d: int = s.len() as int * 2550000;
    assert(luminance_sum(s) * 1000000 == 1000000 * d);
    lemma_div_by_multiple(1000000, d);
}

/// A sequence of pure black pixels averages to exactly zero.
pub proof fn lemma_luminance_black(s: Seq<(u8, u8, u8)>)
    requires
        s.len() > 0,
        forall|i: int| 0 <= i < s.len() ==> s[i] == ((0u8, 0u8, 0u8)),
    ensures
        spec_average_luminance(s) == 0,
{
    lemma_luminance_sum_constant(s);
    let d: int = s.len() as int * 2550000;
    vstd::arithmetic::div_mod::lemma_div_of0(d);
}

proof fn lemma_luminance_sum_constant(s: Seq<(u8, u8, u8)>)
    requires
        (forall|i: int| 0 <= i < s.len() ==> s[i] == ((255u8, 255u8, 255u8))) || (forall|i: int|
            0 <= i < s.len() ==> s[i] == ((0u8, 0u8, 0u8))),
    ensures
        (forall|i: int| 0 <= i < s.len() ==> s[i] == ((255u8, 255u8, 255u8))) ==> luminance_sum(s)
            == s.len() as int * 2550000,
        (forall|i: int| 0 <= i < s.len() ==> s[i] == ((0u8, 0u8, 0u8))) ==> luminance_sum(s) == 0,
    decreases s.len(),
{
    if s.len() > 0 {
        lemma_luminance_sum_constant(s.drop_last());
    }
}

// ---------------------------------------------------------------------------
// Downscaling geometry
// ---------------------------------------------------------------------------

/// Target dimensions when an image is capped at `cap` pixels on its larger
/// side: images already within the cap keep their size, larger ones are
/// scaled so the larger side equals the cap and the aspect ratio is kept.
pub open spec fn spec_downscale_dims(w: u32, h: u32, cap: u32) -> (u32, u32) {
    if w <= cap && h <= cap {
        (w, h)
    } else if w >= h {
        (cap, ((h * cap) / (w as int)) as u32)
    } else {
        (((w * cap) / (h as int)) as u32, cap)
    }
}

/// Computes the capped dimensions of an image.
pub fn downscale_dims(w: u32, h: u32, cap: u32) -> (r: (u32, u32))
    requires
        w > 0,
        h > 0,
        cap > 0,
    ensures
        r == spec_downscale_dims(w, h, cap),
        w <= cap && h <= cap ==> r == (w, h),
        !(w <= cap && h <= cap) ==> (if w >= h {
            r.0 == cap
        } else {
            r.1 == cap
        }),
    {
    if w <= cap && h <= cap {
        (w, h)
    } else if w >= h {
        proof {
            lemma_mul_upper_bound(h as int, 0xffff_ffff as int, cap as int, 0xffff_ffff as int);
            lemma_mul_inequality(h as int, w as int, cap as int);
            lemma_div_is_ordered((h as int) * (cap as int), (w as int) * (cap as int), w as int);
            lemma_div_by_multiple(cap as int, w as int);
        }
        let nh: u64 = ((h as u64) * (cap as u64)) / (w as u64);
        (cap, nh as u32)
    } else {
        proof {
            lemma_mul_upper_bound(w as int, 0xffff_ffff as int, cap as int, 0xffff_ffff as int);
            lemma_mul_inequality(w as int, h as int, cap as int);
            lemma_div_is_ordered((w as int) * (cap as int), (h as int) * (cap as int), h as int);
            lemma_div_by_multiple(cap as int, h as int);
        }
        let nw: u64 = ((w as u64) * (cap as u64)) / (h as u64);
        (nw as u32, cap)
    }
}

// ---------------------------------------------------------------------------
// Tilde expansion
// ---------------------------------------------------------------------------

/// Drops every leading `/` of a character sequence.
pub open spec fn trim_leading_slashes(s: Seq<char>) -> Seq<char>
    decreases s.len(),
{
    if s.len() > 0 && s[0] == '/' {
        trim_leading_slashes(s.skip(1))
    } else {
        s
    }
}

/// What tilde expansion yields: a path starting with `~` has the tilde and
/// any following slashes replaced by the home directory and one slash; any
/// other path is left alone.
pub open spec fn spec_expand_tilde(p: Seq<char>, home: Seq<char>) -> Seq<char> {
    if p.len() > 0 && p[0] == '~' {
        home + seq!['/'] + trim_leading_slashes(p.skip(1))
    } else {
        p
    }
}

proof fn lemma_trim_leading_slashes(s: Seq<char>, k: int)
    requires
        0 <= k <= s.len(),
        forall|j: int| 0 <= j < k ==> s[j] == '/',
        k == s.len() || s[k] != '/',
    ensures
        trim_leading_slashes(s) == s.skip(k),
    decreases k,
{
    if k == 0 {
        assert(s.skip(0) =~= s);
    } else {
        assert(s.len() > 0 && s[0] == '/');
        let t = s.skip(1);
        assert(forall|j: int| 0 <= j < k - 1 ==> t[j] == '/');
        assert(k - 1 == t.len() || t[k - 1] != '/');
        lemma_trim_leading_slashes(t, k - 1);
        assert(t.skip(k - 1) =~= s.skip(k));
    }
}

/// Replaces a leading `~` by the given home directory, the way a shell would.
pub fn expand_tilde(p: &str, home: &str) -> (r: String)
    ensures
        r@ == spec_expand_tilde(p@, home@),
{
    let n = p.unicode_len();
    if n == 0 || p.get_char(0) != '~' {
        return p.to_owned();
    }
    let mut i: usize = 1;
    while i < n
        invariant
            1 <= i <= n,
            n == p@.len(),
            forall|j: int| 1 <= j < i ==> p@[j] == '/',
        ensures
            1 <= i <= n,
            n == p@.len(),
            forall|j: int| 1 <= j < i ==> p@[j] == '/',
            i == n || p@[i as int] != '/',
        decreases n - i,
    {
        if p.get_char(i) != '/' {
            break;
        }
        i = i + 1;
    }
    proof {
        let t = p@.skip(1);
        assert(forall|j: int| 0 <= j < i - 1 ==> t[j] == '/');
        assert(i - 1 == t.len() || t[i - 1] != '/');
        lemma_trim_leading_slashes(t, i - 1);
    }
    let rest = p.substring_char(i, n);
    let mut out = home.to_owned();
    out.append("/");
    out.append(rest);
    proof {
        reveal_strlit("/");
        assert("/"@ =~= seq!['/']);
        assert(p@.skip(1).skip(i - 1) =~= p@.subrange(i as int, n as int));
        assert(out@ =~= spec_expand_tilde(p@, home@));
    }
    out
}

// ---------------------------------------------------------------------------
// Content hashing
// ---------------------------------------------------------------------------

/// The lower-case hexadecimal SHA-256 digest of a byte sequence; its value is
/// fixed by the bytes alone.
pub uninterp spec fn sha256_hex_of(bytes: Seq<u8>) -> Seq<char>;

/// Relies on sha2's `Sha256` and its `LowerHex` digest formatting: the digest
/// of a byte string is a function of those bytes alone, and its hexadecimal
/// form is 64 characters long.
#[verifier::external_body]
pub fn hash_bytes(bytes: &Vec<u8>) -> (r: String)
    ensures
        r@ == sha256_hex_of(bytes@),
        r@.len() == 64,
{
    let mut hasher: sha2::Sha256 = sha2::Digest::new();
    sha2::Digest::update(&mut hasher, bytes.as_slice());
    format!("{:x}", sha2::Digest::finalize(hasher))
}

// ---------------------------------------------------------------------------
// Image decoding, behind trusted wrappers around the image crate
// ---------------------------------------------------------------------------

/// The pixel dimensions of an encoded image, or `None` when the bytes do not
/// decode; fixed by the bytes alone.
pub uninterp spec fn dims_of(bytes: Seq<u8>) -> Option<(u32, u32)>;

/// The RGB pixels of an encoded image, row by row, or `None` when the bytes
/// do not decode; fixed by the bytes alone.
pub uninterp spec fn pixels_of(bytes: Seq<u8>) -> Option<Seq<(u8, u8, u8)>>;

/// The RGB pixels of an encoded image after an exact resize to `w` by `h`
/// with a triangle filter; fixed by the arguments alone.
pub uninterp spec fn resized_pixels_of(bytes: Seq<u8>, w: u32, h: u32) -> Option<
    Seq<(u8, u8, u8)>,
>;

/// Relies on image::load_from_memory and GenericImageView::dimensions:
/// decoding is deterministic, so the size is a function of the bytes alone.
#[verifier::external_body]
pub(crate) fn image_dims(bytes: &Vec<u8>) -> (r: Option<(u32, u32)>)
    ensures
        r == dims_of(bytes@),
{
    image::load_from_memory(bytes.as_slice()).ok().map(|img| image::GenericImageView::dimensions(
        &img,
    ))
}

/// Relies on image::load_from_memory and GenericImageView::pixels: decoding
/// is deterministic, so the pixels are a function of the bytes alone.
#[verifier::external_body]
fn image_pixels(bytes: &Vec<u8>) -> (r: Option<Vec<(u8, u8, u8)>>)
    ensures
        r is Some <==> pixels_of(bytes@) is Some,
        r matches Some(v) ==> pixels_of(bytes@) == Some(v@),
{
    image::load_from_memory(bytes.as_slice()).ok().map(|img| {
        image::GenericImageView::pixels(&img).map(|p| {
            let [r, g, b, _] = p.2 .0;
            (r, g, b)
        }).collect()
    })
}

/// Relies on image::load_from_memory, DynamicImage::resize_exact with the
/// triangle filter, and GenericImageView::pixels: all deterministic in the
/// arguments.
#[verifier::external_body]
fn image_pixels_resized(bytes: &Vec<u8>, w: u32, h: u32) -> (r: Option<Vec<(u8, u8, u8)>>)
    ensures
        r is Some <==> resized_pixels_of(bytes@, w, h) is Some,
        r matches Some(v) ==> resized_pixels_of(bytes@, w, h) == Some(v@),
{
    image::load_from_memory(bytes.as_slice()).ok().map(|img| {
        let small = img.resize_exact(w, h, image::imageops::FilterType::Triangle);
        image::GenericImageView::pixels(&small).map(|p| {
            let [r, g, b, _] = p.2 .0;
            (r, g, b)
        }).collect()
    })
}

/// The larger side allowed for the image that luminance is computed from.
pub const LUMINANCE_CAP: u32 = 64;

/// The pixels that the luminance statistic is taken over: the decoded image,
/// downscaled so its larger side is at most `LUMINANCE_CAP`.
pub open spec fn luminance_pixels_of(bytes: Seq<u8>) -> Option<Seq<(u8, u8, u8)>> {
    match dims_of(bytes) {
        None => None,
        Some(d) => {
            if d.0 == 0 || d.1 == 0 {
                None
            } else if d.0 <= LUMINANCE_CAP && d.1 <= LUMINANCE_CAP {
                pixels_of(bytes)
            } else {
                let nd = spec_downscale_dims(d.0, d.1, LUMINANCE_CAP);
                resized_pixels_of(bytes, nd.0, nd.1)
            }
        },
    }
}

/// The mean luminance of an encoded image, in parts per million, computed
/// over a copy downscaled to at most `LUMINANCE_CAP` pixels on the larger
/// side. `None` exactly when the bytes do not decode to a usable image.
pub fn average_luminance(bytes: &Vec<u8>) -> (r: Option<u32>)
    ensures
        match r {
            Some(l) => {
                &&& luminance_pixels_of(bytes@) matches Some(px)
                &&& px.len() > 0
                &&& l == spec_average_luminance(px)
                &&& l <= LUMINANCE_UNIT
            },
            None => match luminance_pixels_of(bytes@) {
                None => true,
                Some(px) => px.len() == 0,
            },
        },
{
    let dims = match image_dims(bytes) {
        None => { return None; },
        Some(d) => d,
    };
    if dims.0 == 0 || dims.1 == 0 {
        return None;
    }
    let pixels = if dims.0 <= LUMINANCE_CAP && dims.1 <= LUMINANCE_CAP {
        image_pixels(bytes)
    } else {
        let nd = downscale_dims(dims.0, dims.1, LUMINANCE_CAP);
        image_pixels_resized(bytes, nd.0, nd.1)
    };
    match pixels {
        None => None,
        Some(px) => {
            if px.len() == 0 {
                None
            } else {
                Some(average_luminance_of(&px))
            }
        },
    }
}

} // verus!
