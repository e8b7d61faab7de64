use vstd::prelude::*;
use vstd::string::StrSliceExecFns;
use crate::color::Rgba;
use crate::raster::MAX_SIDE;

verus! {

/// The QR error-correction level: payload capacity traded for redundancy.
#[derive(Clone, Copy, PartialEq, Eq, Structural, Debug)]
pub enum EcLevel {
    L,
    M,
    Q,
    H,
}

/// The level a configuration string resolves to: exactly `"L"`, `"M"`, `"Q"`
/// or `"H"`; anything else defaults to `H`.
pub open spec fn resolve_level_spec(s: Seq<char>) -> EcLevel {
    if s.len() == 1 {
        if s[0] == 'L' {
            EcLevel::L
        } else if s[0] == 'M' {
            EcLevel::M
        } else if s[0] == 'Q' {
            EcLevel::Q
        } else {
            EcLevel::H
        }
    } else {
        EcLevel::H
    }
}

/// Resolve a configuration string to an error-correction level; unrecognized
/// strings default to `H`.
pub fn resolve_level(level: &str) -> (r: EcLevel)
    ensures
        r == resolve_level_spec(level@),
{
    if level.unicode_len() == 1 {
        let c = level.get_char(0);
        if c == 'L' {
            EcLevel::L
        } else if c == 'M' {
            EcLevel::M
        } else if c == 'Q' {
            EcLevel::Q
        } else {
            EcLevel::H
        }
    } else {
        EcLevel::H
    }
}

/// Clamp a requested symbol version into the valid range `1..=40`.
pub fn clamp_version(version: i16) -> (v: u8)
    ensures
        1 <= v <= 40,
        version < 1 ==> v == 1,
        version > 40 ==> v == 40,
        1 <= version <= 40 ==> v == version,
{
    if version < 1 {
        1
    } else if version > 40 {
        40
    } else {
        version as u8
    }
}

/// Every tunable of a render. The falloff pair is given in thousandths of a
/// module: `falloff_a` is the edge distance at which the dot mask reaches
/// full opacity and `falloff_b` the width of the ramp leading up to it.
pub struct RenderConfig {
    /// Pixels per module; the default is 16.
    pub scale: usize,
    /// Quiet-zone width in pixels around the symbol; the default is 64.
    pub quiet_zone: usize,
    /// Extra caption band below the symbol, in pixels; the default is 0.
    pub caption_band: usize,
    /// Flat canvas background color; fully opaque.
    pub background: Rgba,
    /// Edge-falloff width `a`, in thousandths; the default is 220.
    pub falloff_a: u32,
    /// Falloff sharpness `b`, in thousandths; the default is 60.
    pub falloff_b: u32,
}

impl RenderConfig {
    /// A well-formed configuration: at least one pixel per module, an opaque
    /// background, and a falloff pair with `a > b >= 0` so the ramp is
    /// well-defined (`a` itself is kept within one module).
    pub open spec fn valid(self) -> bool {
        &&& 1 <= self.scale
        &&& self.background.a == 255
        &&& self.falloff_b < self.falloff_a <= 1000
    }

    /// The canvas for a symbol of `w` modules per side stays within the
    /// allocation bound on both axes.
    pub open spec fn fits(self, w: int) -> bool {
        w * self.scale + 2 * self.quiet_zone + self.caption_band <= MAX_SIDE
    }
}

impl Default for RenderConfig {
    /// The documented defaults: 16 pixels per module, a 64-pixel quiet zone,
    /// no caption band, a flat blue background and the `(220, 60)` falloff.
    fn default() -> (c: Self)
        ensures
            c.valid(),
            c.scale == 16,
            c.quiet_zone == 64,
            c.caption_band == 0,
            c.background == (Rgba { r: 58, g: 118, b: 240, a: 255 }),
            c.falloff_a == 220,
            c.falloff_b == 60,
    {
        RenderConfig {
            scale: 16,
            quiet_zone: 64,
            caption_band: 0,
            background: Rgba { r: 58, g: 118, b: 240, a: 255 },
            falloff_a: 220,
            falloff_b: 60,
        }
    }
}

} // verus!
