//! Color data model for HDR/wide-gamut composition.
//!
//! Every quantity is held exactly, in the units the color-management protocol
//! itself transmits:
//! - chromaticity coordinates in millionths (CIE 1931 xy * 1 000 000);
//! - luminances in ten-thousandths of a cd/m² (the protocol's `min_lum` unit),
//!   so every luminance a client can send is represented without rounding.
use vstd::prelude::*;

verus! {

/// Luminance units per cd/m²: luminances are stored in 0.0001 cd/m² steps.
pub const LUMINANCE_UNIT: u64 = 10000;

/// Default SDR reference (diffuse) white luminance: 203 cd/m² (ITU-R BT.2408).
pub const SDR_REFERENCE_WHITE: u64 = 2_030_000;

/// PQ (ST 2084) peak luminance: 10000 cd/m², what normalized 1.0 encodes to.
pub const PQ_MAX_LUMINANCE: u64 = 100_000_000;

/// Windows scRGB luminance represented by linear channel value 1.0: 80 cd/m².
pub const SCRGB_UNIT_LUMINANCE: u64 = 800_000;

/// A CIE 1931 xy chromaticity, both coordinates in millionths.
#[derive(Debug, Clone, Copy, PartialEq, Eq, Structural)]
pub struct Chromaticity {
    pub x: i32,
    pub y: i32,
}

/// CIE 1931 xy chromaticity coordinates of the RGB primaries and white point.
#[derive(Debug, Clone, Copy, PartialEq, Eq, Structural)]
pub struct Primaries {
    pub red: Chromaticity,
    pub green: Chromaticity,
    pub blue: Chromaticity,
    pub white: Chromaticity,
}

/// The D65 white point, shared by every color space of this model.
pub open spec fn d65() -> Chromaticity {
    Chromaticity { x: 312_700, y: 329_000 }
}

/// BT.709 primaries with a D65 white point (also used by sRGB and scRGB).
pub open spec fn spec_bt709() -> Primaries {
    Primaries {
        red: Chromaticity { x: 640_000, y: 330_000 },
        green: Chromaticity { x: 300_000, y: 600_000 },
        blue: Chromaticity { x: 150_000, y: 60_000 },
        white: d65(),
    }
}

/// BT.2020 primaries with a D65 white point.
pub open spec fn spec_bt2020() -> Primaries {
    Primaries {
        red: Chromaticity { x: 708_000, y: 292_000 },
        green: Chromaticity { x: 170_000, y: 797_000 },
        blue: Chromaticity { x: 131_000, y: 46_000 },
        white: d65(),
    }
}

impl Primaries {
    /// BT.709 primaries with a D65 white point.
    pub fn bt709() -> (p: Primaries)
        ensures
            p == spec_bt709(),
    {
        Primaries {
            red: Chromaticity { x: 640_000, y: 330_000 },
            green: Chromaticity { x: 300_000, y: 600_000 },
            blue: Chromaticity { x: 150_000, y: 60_000 },
            white: Chromaticity { x: 312_700, y: 329_000 },
        }
    }

    /// BT.2020 primaries with a D65 white point.
    pub fn bt2020() -> (p: Primaries)
        ensures
            p == spec_bt2020(),
    {
        Primaries {
            red: Chromaticity { x: 708_000, y: 292_000 },
            green: Chromaticity { x: 170_000, y: 797_000 },
            blue: Chromaticity { x: 131_000, y: 46_000 },
            white: Chromaticity { x: 312_700, y: 329_000 },
        }
    }
}

/// Opto-electronic transfer characteristics of encoded pixel values.
#[derive(Debug, Clone, Copy, PartialEq, Eq, Structural)]
pub enum TransferFunction {
    /// Linear light (Windows scRGB uses this over BT.709 primaries).
    Linear,
    /// sRGB piecewise curve (IEC 61966-2-1).
    Srgb,
    /// SMPTE ST 2084 (PQ); normalized 1.0 is [`PQ_MAX_LUMINANCE`].
    St2084Pq,
}

/// Rendering intent, matching the color-management-v1 / ICC enumeration.
#[derive(Debug, Clone, Copy, PartialEq, Eq, Structural)]
pub enum RenderingIntent {
    Perceptual,
    RelativeColorimetric,
    Saturation,
    AbsoluteColorimetric,
}

/// Mastering display volume (SMPTE ST 2086), when signalled by the client.
#[derive(Debug, Clone, Copy, PartialEq, Eq, Structural)]
pub struct MasteringDisplay {
    pub primaries: Primaries,
    pub min_luminance: u64,
    pub max_luminance: u64,
}

/// Immutable description of a color space and its luminance characteristics.
///
/// All luminances are in units of 0.0001 cd/m² (see [`LUMINANCE_UNIT`]).
#[derive(Debug, Clone, Copy, PartialEq, Eq, Structural)]
pub struct ImageDescription {
    pub primaries: Primaries,
    pub transfer: TransferFunction,
    /// Minimum display/mastering luminance.
    pub min_luminance: u64,
    /// Maximum display/mastering luminance.
    pub max_luminance: u64,
    /// Reference (diffuse) white luminance.
    pub reference_white: u64,
    /// Absolute luminance represented by decoded channel value 1.0.
    pub luminance_scale: u64,
    pub mastering: Option<MasteringDisplay>,
    /// Maximum content light level, when supplied.
    pub max_cll: Option<u64>,
    /// Maximum frame-average light level, when supplied.
    pub max_fall: Option<u64>,
    pub rendering_intent: RenderingIntent,
}

/// Canonical sRGB: BT.709 primaries, sRGB transfer, SDR reference white.
pub open spec fn spec_srgb() -> ImageDescription {
    ImageDescription {
        primaries: spec_bt709(),
        transfer: TransferFunction::Srgb,
        min_luminance: 0,
        max_luminance: SDR_REFERENCE_WHITE,
        reference_white: SDR_REFERENCE_WHITE,
        luminance_scale: SDR_REFERENCE_WHITE,
        mastering: None,
        max_cll: None,
        max_fall: None,
        rendering_intent: RenderingIntent::Perceptual,
    }
}

/// Canonical HDR10: PQ transfer over BT.2020 primaries.
pub open spec fn spec_pq_bt2020() -> ImageDescription {
    ImageDescription {
        primaries: spec_bt2020(),
        transfer: TransferFunction::St2084Pq,
        min_luminance: 0,
        max_luminance: PQ_MAX_LUMINANCE,
        reference_white: SDR_REFERENCE_WHITE,
        luminance_scale: PQ_MAX_LUMINANCE,
        mastering: None,
        max_cll: None,
        max_fall: None,
        rendering_intent: RenderingIntent::Perceptual,
    }
}

/// Canonical Windows scRGB: linear light over BT.709, 1.0 == 80 cd/m²; the
/// reference white is the 203 cd/m² the protocol recommends assuming.
pub open spec fn spec_windows_scrgb() -> ImageDescription {
    ImageDescription {
        primaries: spec_bt709(),
        transfer: TransferFunction::Linear,
        min_luminance: 0,
        max_luminance: PQ_MAX_LUMINANCE,
        reference_white: SDR_REFERENCE_WHITE,
        luminance_scale: SCRGB_UNIT_LUMINANCE,
        mastering: None,
        max_cll: None,
        max_fall: None,
        rendering_intent: RenderingIntent::Perceptual,
    }
}

impl ImageDescription {
    /// Canonical sRGB (BT.709 primaries, sRGB transfer, SDR white).
    pub fn srgb() -> (d: ImageDescription)
        ensures
            d == spec_srgb(),
    {
        ImageDescription {
            primaries: Primaries::bt709(),
            transfer: TransferFunction::Srgb,
            min_luminance: 0,
            max_luminance: SDR_REFERENCE_WHITE,
            reference_white: SDR_REFERENCE_WHITE,
            luminance_scale: SDR_REFERENCE_WHITE,
            mastering: None,
            max_cll: None,
            max_fall: None,
            rendering_intent: RenderingIntent::Perceptual,
        }
    }

    /// Canonical HDR10 space: PQ transfer over BT.2020 primaries.
    pub fn pq_bt2020() -> (d: ImageDescription)
        ensures
            d == spec_pq_bt2020(),
    {
        ImageDescription {
            primaries: Primaries::bt2020(),
            transfer: TransferFunction::St2084Pq,
            min_luminance: 0,
            max_luminance: PQ_MAX_LUMINANCE,
            reference_white: SDR_REFERENCE_WHITE,
            luminance_scale: PQ_MAX_LUMINANCE,
            mastering: None,
            max_cll: None,
            max_fall: None,
            rendering_intent: RenderingIntent::Perceptual,
        }
    }

    /// Canonical Windows scRGB: linear light over BT.709 primaries.
    pub fn windows_scrgb() -> (d: ImageDescription)
        ensures
            d == spec_windows_scrgb(),
    {
        ImageDescription {
            primaries: Primaries::bt709(),
            transfer: TransferFunction::Linear,
            min_luminance: 0,
            max_luminance: PQ_MAX_LUMINANCE,
            reference_white: SDR_REFERENCE_WHITE,
            luminance_scale: SCRGB_UNIT_LUMINANCE,
            mastering: None,
            max_cll: None,
            max_fall: None,
            rendering_intent: RenderingIntent::Perceptual,
        }
    }
}

/// The eight chromaticity coordinates of a set of primaries, in the order the
/// protocol sends them: red x, y, green x, y, blue x, y, white x, y.
pub open spec fn xy_coordinates(p: Primaries) -> Seq<i32> {
    seq![p.red.x, p.red.y, p.green.x, p.green.y, p.blue.x, p.blue.y, p.white.x, p.white.y]
}

/// The named primaries have their published chromaticities (ITU-R BT.709 and
/// BT.2020, both with the D65 white point), in millionths.
pub proof fn lemma_named_primaries_chromaticities()
    ensures
        xy_coordinates(spec_bt709()) == seq![
            640_000i32,
            330_000,
            300_000,
            600_000,
            150_000,
            60_000,
            312_700,
            329_000,
        ],
        xy_coordinates(spec_bt2020()) == seq![
            708_000i32,
            292_000,
            170_000,
            797_000,
            131_000,
            46_000,
            312_700,
            329_000,
        ],
{
}

/// The canonical descriptions:
/// - sRGB is the sRGB curve over BT.709, 0 to 203 cd/m², with 1.0 and the
///   reference white at 203 cd/m²;
/// - HDR10 is the PQ curve over BT.2020, 0 to 10000 cd/m², with 1.0 at
///   10000 cd/m² and the reference white at 203 cd/m²;
/// - Windows scRGB is linear light over the same BT.709 primaries as sRGB, up
///   to 10000 cd/m², with 1.0 at 80 cd/m² and the reference white at 203 cd/m².
/// None carries mastering data or content light levels, and all are
/// perceptual.
pub proof fn lemma_canonical_descriptions()
    ensures
        xy_coordinates(spec_srgb().primaries) == seq![
            640_000i32,
            330_000,
            300_000,
            600_000,
            150_000,
            60_000,
            312_700,
            329_000,
        ],
        xy_coordinates(spec_pq_bt2020().primaries) == seq![
            708_000i32,
            292_000,
            170_000,
            797_000,
            131_000,
            46_000,
            312_700,
            329_000,
        ],
        spec_windows_scrgb().primaries == spec_srgb().primaries,
        spec_srgb().transfer == TransferFunction::Srgb,
        spec_pq_bt2020().transfer == TransferFunction::St2084Pq,
        spec_windows_scrgb().transfer == TransferFunction::Linear,
        spec_srgb().min_luminance == 0 && spec_srgb().max_luminance == 2_030_000
            && spec_srgb().reference_white == 2_030_000 && spec_srgb().luminance_scale
            == 2_030_000,
        spec_pq_bt2020().min_luminance == 0 && spec_pq_bt2020().max_luminance == 100_000_000
            && spec_pq_bt2020().reference_white == 2_030_000
            && spec_pq_bt2020().luminance_scale == 100_000_000,
        spec_windows_scrgb().min_luminance == 0 && spec_windows_scrgb().max_luminance
            == 100_000_000 && spec_windows_scrgb().reference_white == 2_030_000
            && spec_windows_scrgb().luminance_scale == 800_000,
        spec_srgb().mastering is None && spec_srgb().max_cll is None && spec_srgb().max_fall is None,
        spec_pq_bt2020().mastering is None && spec_pq_bt2020().max_cll is None
            && spec_pq_bt2020().max_fall is None,
        spec_windows_scrgb().mastering is None && spec_windows_scrgb().max_cll is None
            && spec_windows_scrgb().max_fall is None,
        spec_srgb().rendering_intent == RenderingIntent::Perceptual,
        spec_pq_bt2020().rendering_intent == RenderingIntent::Perceptual,
        spec_windows_scrgb().rendering_intent == RenderingIntent::Perceptual,
{
}

} // verus!
