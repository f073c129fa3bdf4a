use vstd::prelude::*;

pub mod cache;
pub mod config;
pub mod json;
pub mod llava;
pub mod matugen;
pub mod palette;
pub mod reload;
pub mod utils;
pub mod watch;

use crate::palette::Palette;
use crate::utils::Mode;
use crate::utils::ModeSetting;
use crate::utils::spec_decide_mode;

verus! {

/// The ways the pipeline can fail.
#[derive(Clone, Copy, Debug, PartialEq, Eq, Structural)]
pub enum SeedError {
    /// The image could not be opened or decoded.
    Decode,
    /// The model endpoint could not be reached at the transport level.
    Network,
    /// The model answered, but no parseable palette came out of the retry
    /// budget.
    UnusableResponse,
    /// The cache file could not be read or written.
    CacheIo,
    /// The external renderer is missing or exited with a failure.
    Render,
}

impl SeedError {
    /// A short description of the failure.
    pub fn message(&self) -> (r: &'static str)
        ensures
            *self == SeedError::Decode ==> r@ == "image cannot be opened or decoded"@,
            *self == SeedError::Network ==> r@ == "llava request failed"@,
            *self == SeedError::UnusableResponse ==> r@ == "llava returned unusable data"@,
            *self == SeedError::CacheIo ==> r@ == "cache file cannot be read or written"@,
            *self == SeedError::Render ==> r@ == "matugen failed"@,
    {
        match self {
            SeedError::Decode => "image cannot be opened or decoded",
            SeedError::Network => "llava request failed",
            SeedError::UnusableResponse => "llava returned unusable data",
            SeedError::CacheIo => "cache file cannot be read or written",
            SeedError::Render => "matugen failed",
        }
    }
}

/// The mode an apply is asked for: an explicit override wins over the
/// configured default.
pub open spec fn spec_desired_mode(
    requested: Option<ModeSetting>,
    default_mode: ModeSetting,
) -> ModeSetting {
    match requested {
        Some(m) => m,
        None => default_mode,
    }
}

/// Whether resolving the mode will need the image's luminance — exactly
/// when the desired mode is `Auto`.
pub fn needs_luminance(requested: &Option<ModeSetting>, default_mode: ModeSetting) -> (r: bool)
    ensures
        r == (spec_desired_mode(*requested, default_mode) == ModeSetting::Auto),
{
    match requested {
        Some(m) => *m == ModeSetting::Auto,
        None => default_mode == ModeSetting::Auto,
    }
}

/// What the desired mode resolves to: dark and light stand as given; auto
/// goes by the luminance, and stays unresolved only when no luminance could
/// be computed.
pub open spec fn spec_resolve_mode(desired: ModeSetting, lum_ppm: Option<u32>) -> Option<Mode> {
    match desired {
        ModeSetting::Dark => Some(Mode::Dark),
        ModeSetting::Light => Some(Mode::Light),
        ModeSetting::Auto => match lum_ppm {
            Some(l) => Some(spec_decide_mode(l)),
            None => None,
        },
    }
}

/// Resolves the requested mode against the configured default and — for
/// `Auto` — the image's luminance. The result is never `Auto`: whatever
/// reaches the renderer is dark or light.
pub fn resolve_mode(
    requested: &Option<ModeSetting>,
    default_mode: ModeSetting,
    lum_ppm: Option<u32>,
) -> (r: Option<Mode>)
    ensures
        r == spec_resolve_mode(spec_desired_mode(*requested, default_mode), lum_ppm),
{
    let desired = match requested {
        Some(m) => *m,
        None => default_mode,
    };
    match desired {
        ModeSetting::Dark => Some(Mode::Dark),
        ModeSetting::Light => Some(Mode::Light),
        ModeSetting::Auto => match lum_ppm {
            Some(l) => Some(crate::utils::decide_mode(l)),
            None => None,
        },
    }
}

/// The palette an apply renders from, once the cache was consulted and —
/// only on a miss — the model queried: a cache hit is used as is, and a
/// failed query leaves the palette absent rather than failing the apply.
pub fn resolved_palette(cached: Option<Palette>, fresh: Option<Palette>) -> (r: Option<Palette>)
    ensures
        cached is Some ==> r == cached,
        cached is None ==> r == fresh,
{
    match cached {
        Some(p) => Some(p),
        None => fresh,
    }
}

} // verus!
