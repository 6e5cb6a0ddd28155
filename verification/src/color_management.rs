//! The `color-management-v1` protocol: capabilities, parametric image
//! descriptions, and the decision each request leads to.
//!
//! Enumerated protocol arguments are handled by their wire values (the numbers
//! of `color-management-v1.xml`), so that unknown values are rejected exactly
//! as unsupported known ones are. Each `*_request` function takes the state of
//! one protocol object and a request, and returns what the compositor must do:
//! create an object, raise a protocol error, or store a value. Sending the
//! events is left to the Wayland glue.
//!
//! Luminances follow the units of [`crate::color`]: 0.0001 cd/m², the unit of
//! `set_luminances.min_lum`, so every value a client sends is held exactly.
use vstd::prelude::*;

use crate::color::{
    lemma_named_primaries_chromaticities, spec_bt2020, spec_bt709, spec_windows_scrgb,
    xy_coordinates, ImageDescription, Primaries,
    RenderingIntent, TransferFunction, LUMINANCE_UNIT, PQ_MAX_LUMINANCE, SDR_REFERENCE_WHITE,
};

verus! {

// ---------------------------------------------------------------------------
// Wire values of the protocol enumerations.
// ---------------------------------------------------------------------------

/// `wp_color_manager_v1.render_intent.perceptual`.
pub const RENDER_INTENT_PERCEPTUAL: u32 = 0;
/// `wp_color_manager_v1.render_intent.relative`.
pub const RENDER_INTENT_RELATIVE: u32 = 1;
/// `wp_color_manager_v1.render_intent.saturation`.
pub const RENDER_INTENT_SATURATION: u32 = 2;
/// `wp_color_manager_v1.render_intent.absolute`.
pub const RENDER_INTENT_ABSOLUTE: u32 = 3;

/// `wp_color_manager_v1.feature.parametric`.
pub const FEATURE_PARAMETRIC: u32 = 1;
/// `wp_color_manager_v1.feature.set_luminances`.
pub const FEATURE_SET_LUMINANCES: u32 = 4;
/// `wp_color_manager_v1.feature.windows_scrgb`.
pub const FEATURE_WINDOWS_SCRGB: u32 = 7;

/// `wp_color_manager_v1.primaries.srgb` (BT.709).
pub const PRIMARIES_SRGB: u32 = 1;
/// `wp_color_manager_v1.primaries.bt2020`.
pub const PRIMARIES_BT2020: u32 = 6;

/// `wp_color_manager_v1.transfer_function.ext_linear`.
pub const TF_EXT_LINEAR: u32 = 5;
/// `wp_color_manager_v1.transfer_function.srgb`.
pub const TF_SRGB: u32 = 9;
/// `wp_color_manager_v1.transfer_function.st2084_pq`.
pub const TF_ST2084_PQ: u32 = 11;

// ---------------------------------------------------------------------------
// Mapping protocol names into the color model.
// ---------------------------------------------------------------------------

pub open spec fn spec_map_tf(tf: u32) -> Option<TransferFunction> {
    if tf == TF_SRGB {
        Some(TransferFunction::Srgb)
    } else if tf == TF_ST2084_PQ {
        Some(TransferFunction::St2084Pq)
    } else if tf == TF_EXT_LINEAR {
        Some(TransferFunction::Linear)
    } else {
        None
    }
}

pub open spec fn spec_map_primaries(p: u32) -> Option<Primaries> {
    if p == PRIMARIES_SRGB {
        Some(spec_bt709())
    } else if p == PRIMARIES_BT2020 {
        Some(spec_bt2020())
    } else {
        None
    }
}

pub open spec fn spec_map_intent(intent: u32) -> Option<RenderingIntent> {
    if intent == RENDER_INTENT_PERCEPTUAL {
        Some(RenderingIntent::Perceptual)
    } else if intent == RENDER_INTENT_RELATIVE {
        Some(RenderingIntent::RelativeColorimetric)
    } else if intent == RENDER_INTENT_SATURATION {
        Some(RenderingIntent::Saturation)
    } else if intent == RENDER_INTENT_ABSOLUTE {
        Some(RenderingIntent::AbsoluteColorimetric)
    } else {
        None
    }
}

/// Map a protocol named transfer function to the internal color model.
pub fn map_tf(tf: u32) -> (r: Option<TransferFunction>)
    ensures
        r == spec_map_tf(tf),
{
    if tf == TF_SRGB {
        Some(TransferFunction::Srgb)
    } else if tf == TF_ST2084_PQ {
        Some(TransferFunction::St2084Pq)
    } else if tf == TF_EXT_LINEAR {
        Some(TransferFunction::Linear)
    } else {
        None
    }
}

/// Map protocol named primaries to the internal color model.
pub fn map_primaries(p: u32) -> (r: Option<Primaries>)
    ensures
        r == spec_map_primaries(p),
{
    if p == PRIMARIES_SRGB {
        Some(Primaries::bt709())
    } else if p == PRIMARIES_BT2020 {
        Some(Primaries::bt2020())
    } else {
        None
    }
}

/// Map a protocol rendering intent to the internal color model.
pub fn map_intent(intent: u32) -> (r: Option<RenderingIntent>)
    ensures
        r == spec_map_intent(intent),
{
    if intent == RENDER_INTENT_PERCEPTUAL {
        Some(RenderingIntent::Perceptual)
    } else if intent == RENDER_INTENT_RELATIVE {
        Some(RenderingIntent::RelativeColorimetric)
    } else if intent == RENDER_INTENT_SATURATION {
        Some(RenderingIntent::Saturation)
    } else if intent == RENDER_INTENT_ABSOLUTE {
        Some(RenderingIntent::AbsoluteColorimetric)
    } else {
        None
    }
}

// ---------------------------------------------------------------------------
// Capabilities advertised on bind.
// ---------------------------------------------------------------------------

/// Rendering intents advertised: only perceptual, which the protocol makes
/// mandatory.
pub open spec fn spec_supported_intents() -> Seq<u32> {
    seq![RENDER_INTENT_PERCEPTUAL]
}

/// Features advertised: parametric descriptions, per-volume luminances and the
/// Windows-scRGB shortcut.
pub open spec fn spec_supported_features() -> Seq<u32> {
    seq![FEATURE_PARAMETRIC, FEATURE_SET_LUMINANCES, FEATURE_WINDOWS_SCRGB]
}

/// Named transfer functions advertised.
pub open spec fn spec_supported_tfs() -> Seq<u32> {
    seq![TF_SRGB, TF_ST2084_PQ, TF_EXT_LINEAR]
}

/// Named primaries advertised.
pub open spec fn spec_supported_primaries() -> Seq<u32> {
    seq![PRIMARIES_SRGB, PRIMARIES_BT2020]
}

/// An event the manager sends when it is bound.
#[derive(Debug, Clone, Copy, PartialEq, Eq, Structural)]
pub enum CapabilityEvent {
    SupportedIntent(u32),
    SupportedFeature(u32),
    SupportedTfNamed(u32),
    SupportedPrimariesNamed(u32),
    Done,
}

/// The events of a bind, in order: intents, features, transfer functions,
/// primaries, then `done`.
pub open spec fn spec_bind_events() -> Seq<CapabilityEvent> {
    spec_supported_intents().map_values(|i: u32| CapabilityEvent::SupportedIntent(i))
        + spec_supported_features().map_values(|f: u32| CapabilityEvent::SupportedFeature(f))
        + spec_supported_tfs().map_values(|t: u32| CapabilityEvent::SupportedTfNamed(t))
        + spec_supported_primaries().map_values(
        |p: u32| CapabilityEvent::SupportedPrimariesNamed(p),
    ) + seq![CapabilityEvent::Done]
}

/// The capability events a newly bound `wp_color_manager_v1` receives.
pub fn bind_events() -> (events: Vec<CapabilityEvent>)
    ensures
        events@ == spec_bind_events(),
{
    let mut events: Vec<CapabilityEvent> = Vec::new();
    events.push(CapabilityEvent::SupportedIntent(RENDER_INTENT_PERCEPTUAL));
    events.push(CapabilityEvent::SupportedFeature(FEATURE_PARAMETRIC));
    events.push(CapabilityEvent::SupportedFeature(FEATURE_SET_LUMINANCES));
    events.push(CapabilityEvent::SupportedFeature(FEATURE_WINDOWS_SCRGB));
    events.push(CapabilityEvent::SupportedTfNamed(TF_SRGB));
    events.push(CapabilityEvent::SupportedTfNamed(TF_ST2084_PQ));
    events.push(CapabilityEvent::SupportedTfNamed(TF_EXT_LINEAR));
    events.push(CapabilityEvent::SupportedPrimariesNamed(PRIMARIES_SRGB));
    events.push(CapabilityEvent::SupportedPrimariesNamed(PRIMARIES_BT2020));
    events.push(CapabilityEvent::Done);
    assert(events@ =~= spec_bind_events());
    events
}

/// Every advertised capability is backed by the color model: each advertised
/// transfer function, primaries and intent maps to a value of the model, and
/// the mandatory perceptual intent is among the advertised intents.
pub proof fn lemma_capabilities_backed_by_color_model()
    ensures
        forall|i: int|
            0 <= i < spec_supported_tfs().len() ==> (#[trigger] spec_map_tf(
                spec_supported_tfs()[i],
            )) is Some,
        forall|i: int|
            0 <= i < spec_supported_primaries().len() ==> (#[trigger] spec_map_primaries(
                spec_supported_primaries()[i],
            )) is Some,
        forall|i: int|
            0 <= i < spec_supported_intents().len() ==> (#[trigger] spec_map_intent(
                spec_supported_intents()[i],
            )) is Some,
        spec_supported_intents().contains(RENDER_INTENT_PERCEPTUAL),
{
    assert(spec_supported_intents()[0] == RENDER_INTENT_PERCEPTUAL);
}

// ---------------------------------------------------------------------------
// Image description identities.
// ---------------------------------------------------------------------------

/// Source of image-description identity numbers. Identities count up from 1
/// and are never recycled (0 is reserved as invalid by the protocol); the
/// counter wraps like the atomic it stands for.
#[derive(Debug)]
pub struct IdentityCounter {
    next: u32,
}

/// The counter's value after handing out `id`.
pub open spec fn spec_identity_successor(id: u32) -> u32 {
    if id == u32::MAX {
        0
    } else {
        (id + 1) as u32
    }
}

impl IdentityCounter {
    /// The identity the next call of [`next_identity`] hands out.
    pub closed spec fn spec_next(&self) -> u32 {
        self.next
    }

    /// A counter whose first identity is 1.
    pub fn new() -> (c: IdentityCounter)
        ensures
            c.spec_next() == 1,
    {
        IdentityCounter { next: 1 }
    }
}

/// Hand out the next identity number.
pub fn next_identity(counter: &mut IdentityCounter) -> (id: u32)
    ensures
        id == old(counter).spec_next(),
        final(counter).spec_next() == spec_identity_successor(id),
{
    let id = counter.next;
    counter.next = counter.next.wrapping_add(1);
    id
}

/// Identities are monotonic and never zero: of two consecutive identities
/// handed out by a counter that has not wrapped around, the first is not zero
/// and the second is greater.
pub proof fn lemma_identity_monotonic_and_never_zero(first: u32)
    requires
        1 <= first < u32::MAX,
    ensures
        first != 0,
        spec_identity_successor(first) > first,
        spec_identity_successor(first) != 0,
{
}

// ---------------------------------------------------------------------------
// Parametric image descriptions.
// ---------------------------------------------------------------------------

/// Protocol errors of `wp_image_description_creator_params_v1`.
#[derive(Debug, Clone, Copy, PartialEq, Eq, Structural)]
pub enum CreatorError {
    IncompleteSet,
    AlreadySet,
    UnsupportedFeature,
    InvalidTf,
    InvalidPrimariesNamed,
    InvalidLuminance,
}

impl CreatorError {
    /// The protocol's code for this error.
    pub fn code(&self) -> (c: u32)
        ensures
            c == match self {
                CreatorError::IncompleteSet => 0u32,
                CreatorError::AlreadySet => 1,
                CreatorError::UnsupportedFeature => 2,
                CreatorError::InvalidTf => 3,
                CreatorError::InvalidPrimariesNamed => 4,
                CreatorError::InvalidLuminance => 5,
            },
    {
        match self {
            CreatorError::IncompleteSet => 0,
            CreatorError::AlreadySet => 1,
            CreatorError::UnsupportedFeature => 2,
            CreatorError::InvalidTf => 3,
            CreatorError::InvalidPrimariesNamed => 4,
            CreatorError::InvalidLuminance => 5,
        }
    }
}

/// Why a parametric description could not be produced: a protocol error that
/// must be raised (the client is killed).
#[derive(Debug, Clone, Copy, PartialEq, Eq, Structural)]
pub enum BuildError {
    Protocol(CreatorError),
}

/// The arguments of `set_luminances`: `min_lum` in 0.0001 cd/m², the others in
/// cd/m².
#[derive(Debug, Clone, Copy, PartialEq, Eq, Structural)]
pub struct Luminances {
    pub min_lum: u32,
    pub max_lum: u32,
    pub reference_lum: u32,
}

/// Parameters accumulated by a parametric creator, in wire units (see
/// [`Luminances`]; `max_cll` and `max_fall` are in cd/m²).
/// Each required property is set exactly once.
#[derive(Debug, Clone, Copy, PartialEq, Eq, Structural)]
pub struct ParamsBuilder {
    pub tf: Option<TransferFunction>,
    pub primaries: Option<Primaries>,
    pub luminances: Option<Luminances>,
    pub max_cll: Option<u32>,
    pub max_fall: Option<u32>,
}

pub open spec fn spec_empty_builder() -> ParamsBuilder {
    ParamsBuilder { tf: None, primaries: None, luminances: None, max_cll: None, max_fall: None }
}

impl Default for ParamsBuilder {
    fn default() -> (b: ParamsBuilder)
        ensures
            b == spec_empty_builder(),
    {
        ParamsBuilder { tf: None, primaries: None, luminances: None, max_cll: None, max_fall: None }
    }
}

/// A luminance given in whole cd/m², in the units of the color model.
pub open spec fn spec_cdm2(v: u32) -> u64 {
    (v * LUMINANCE_UNIT) as u64
}

/// The luminances a transfer function implies when none are set:
/// `(min, max, reference)`. Only PQ differs from the protocol defaults
/// (0.2, 80, 80 cd/m²).
pub open spec fn spec_default_luminances(tf: TransferFunction) -> (u64, u64, u64) {
    match tf {
        TransferFunction::St2084Pq => (50, PQ_MAX_LUMINANCE, SDR_REFERENCE_WHITE),
        _ => (2000, 800_000, 800_000),
    }
}

/// The description a complete parameter set stands for, before the
/// content-light-level checks.
pub open spec fn spec_parametric_description(
    tf: TransferFunction,
    primaries: Primaries,
    b: ParamsBuilder,
) -> ImageDescription {
    let (min, max, reference) = match b.luminances {
        Some(l) => (
            l.min_lum as u64,
            // ST 2084 fixes the swing at 10000 cd/m² whatever max_lum says.
            if tf == TransferFunction::St2084Pq {
                (l.min_lum + PQ_MAX_LUMINANCE) as u64
            } else {
                spec_cdm2(l.max_lum)
            },
            spec_cdm2(l.reference_lum),
        ),
        None => spec_default_luminances(tf),
    };
    ImageDescription {
        primaries,
        transfer: tf,
        min_luminance: min,
        max_luminance: max,
        reference_white: reference,
        luminance_scale: if tf == TransferFunction::St2084Pq {
            PQ_MAX_LUMINANCE
        } else {
            reference
        },
        mastering: None,
        max_cll: match b.max_cll {
            Some(c) => Some(spec_cdm2(c)),
            None => None,
        },
        max_fall: match b.max_fall {
            Some(f) => Some(spec_cdm2(f)),
            None => None,
        },
        rendering_intent: RenderingIntent::Perceptual,
    }
}

/// A content light level is acceptable in version 1 when it lies inside the
/// description's range: above the minimum, at most the maximum.
pub open spec fn spec_level_in_range(level: Option<u32>, d: ImageDescription) -> bool {
    match level {
        Some(l) => d.min_luminance < spec_cdm2(l) && spec_cdm2(l) <= d.max_luminance,
        None => true,
    }
}

/// What building a parameter set yields.
pub open spec fn spec_build(b: ParamsBuilder) -> Result<ImageDescription, BuildError> {
    if b.tf is None || b.primaries is None {
        Err(BuildError::Protocol(CreatorError::IncompleteSet))
    } else if b.max_cll is Some && b.max_fall is Some && b.max_fall->0 > b.max_cll->0 {
        Err(BuildError::Protocol(CreatorError::InvalidLuminance))
    } else {
        let d = spec_parametric_description(b.tf->0, b.primaries->0, b);
        if spec_level_in_range(b.max_cll, d) && spec_level_in_range(b.max_fall, d) {
            Ok(d)
        } else {
            Err(BuildError::Protocol(CreatorError::InvalidLuminance))
        }
    }
}

fn cdm2(v: u32) -> (r: u64)
    ensures
        r == spec_cdm2(v),
{
    v as u64 * LUMINANCE_UNIT
}

fn level_in_range(level: Option<u32>, d: &ImageDescription) -> (r: bool)
    ensures
        r == spec_level_in_range(level, *d),
{
    match level {
        Some(l) => {
            let v = cdm2(l);
            d.min_luminance < v && v <= d.max_luminance
        },
        None => true,
    }
}

impl ParamsBuilder {
    /// Build an immutable image description from the accumulated parameters.
    pub fn build(&self) -> (r: Result<ImageDescription, BuildError>)
        ensures
            r == spec_build(*self),
    {
        let (transfer, primaries) = match (self.tf, self.primaries) {
            (Some(t), Some(p)) => (t, p),
            _ => {
                return Err(BuildError::Protocol(CreatorError::IncompleteSet));
            },
        };
        if let (Some(cll), Some(fall)) = (self.max_cll, self.max_fall) {
            if fall > cll {
                return Err(BuildError::Protocol(CreatorError::InvalidLuminance));
            }
        }
        let (mut min, mut max, mut reference): (u64, u64, u64) = match transfer {
            TransferFunction::St2084Pq => (50, PQ_MAX_LUMINANCE, SDR_REFERENCE_WHITE),
            _ => (2000, 800_000, 800_000),
        };
        if let Some(l) = self.luminances {
            min = l.min_lum as u64;
            max = if transfer == TransferFunction::St2084Pq {
                l.min_lum as u64 + PQ_MAX_LUMINANCE
            } else {
                cdm2(l.max_lum)
            };
            reference = cdm2(l.reference_lum);
        }
        let luminance_scale = if transfer == TransferFunction::St2084Pq {
            PQ_MAX_LUMINANCE
        } else {
            reference
        };
        let max_cll = match self.max_cll {
            Some(c) => Some(cdm2(c)),
            None => None,
        };
        let max_fall = match self.max_fall {
            Some(f) => Some(cdm2(f)),
            None => None,
        };
        let desc = ImageDescription {
            primaries,
            transfer,
            min_luminance: min,
            max_luminance: max,
            reference_white: reference,
            luminance_scale,
            mastering: None,
            max_cll,
            max_fall,
            rendering_intent: RenderingIntent::Perceptual,
        };
        // Version 1 requires content-light levels inside the mastering range.
        if !level_in_range(self.max_cll, &desc) || !level_in_range(self.max_fall, &desc) {
            return Err(BuildError::Protocol(CreatorError::InvalidLuminance));
        }
        Ok(desc)
    }
}

// ---------------------------------------------------------------------------
// Image description objects.
// ---------------------------------------------------------------------------

/// A protocol error to raise, with the message sent along with it.
#[derive(Debug, Clone, Copy, PartialEq, Eq)]
pub struct Rejection<E> {
    pub error: E,
    pub message: &'static str,
}

/// A description object that reached the `ready` state.
#[derive(Debug, Clone, Copy, PartialEq, Eq, Structural)]
pub struct ReadyImageDescription {
    pub description: ImageDescription,
    pub identity: u32,
    /// Whether `get_information` is permitted on this object.
    pub allow_info: bool,
}

/// State of a `wp_image_description_v1`: `None` means the object failed and
/// can only be destroyed.
#[derive(Debug, Clone, Copy, PartialEq, Eq, Structural)]
pub struct ImageDescriptionData {
    pub result: Option<ReadyImageDescription>,
}

pub open spec fn spec_ready_data(
    identity: u32,
    description: ImageDescription,
    allow_info: bool,
) -> ImageDescriptionData {
    ImageDescriptionData {
        result: Some(ReadyImageDescription { description, identity, allow_info }),
    }
}

/// The state of a description object that delivers `ready` with the next
/// identity; the caller sends `ready(identity)`.
pub fn make_ready_description(
    counter: &mut IdentityCounter,
    description: ImageDescription,
    allow_info: bool,
) -> (data: ImageDescriptionData)
    ensures
        data == spec_ready_data(old(counter).spec_next(), description, allow_info),
        final(counter).spec_next() == spec_identity_successor(old(counter).spec_next()),
{
    let identity = next_identity(counter);
    ImageDescriptionData {
        result: Some(ReadyImageDescription { description, identity, allow_info }),
    }
}

/// The state of a description object that delivers `failed`.
pub fn make_failed_description() -> (data: ImageDescriptionData)
    ensures
        data.result is None,
{
    ImageDescriptionData { result: None }
}

/// `wp_image_description_v1.cause` values this compositor sends.
#[derive(Debug, Clone, Copy, PartialEq, Eq, Structural)]
pub enum FailureCause {
    NoOutput,
}

impl FailureCause {
    /// The protocol's code for this cause.
    pub fn code(&self) -> (c: u32)
        ensures
            c == 3,
    {
        match self {
            FailureCause::NoOutput => 3,
        }
    }
}

/// A `failed` event: its cause and message.
#[derive(Debug, Clone, Copy, PartialEq, Eq)]
pub struct DescriptionFailure {
    pub cause: FailureCause,
    pub message: &'static str,
}

// ---------------------------------------------------------------------------
// wp_image_description_v1.get_information
// ---------------------------------------------------------------------------

/// The events a `wp_image_description_info_v1` receives before `done`.
/// `primaries` carries the `primaries` event arguments (xy * 1 000 000);
/// `lum_*` are the `luminances` arguments (min in 0.0001 cd/m², the others in
/// cd/m²), `target_*` those of `target_luminance`.
#[derive(Debug, Clone, Copy, PartialEq, Eq, Structural)]
pub struct InformationEvents {
    pub primaries: Primaries,
    pub primaries_named: Option<u32>,
    pub tf_named: u32,
    pub lum_min: u32,
    pub lum_max: u32,
    pub lum_reference: u32,
    pub target_min: u32,
    pub target_max: u32,
}

/// An unsigned protocol argument: values beyond `u32` saturate.
pub open spec fn spec_saturate(v: u64) -> u32 {
    if v > u32::MAX as u64 {
        u32::MAX
    } else {
        v as u32
    }
}

/// A luminance rounded to the nearest whole cd/m² (halves round up).
pub open spec fn spec_round_cdm2(v: u64) -> u64 {
    (v / LUMINANCE_UNIT + if v % LUMINANCE_UNIT >= 5000 { 1u64 } else { 0u64 }) as u64
}

pub open spec fn spec_tf_wire(tf: TransferFunction) -> u32 {
    match tf {
        TransferFunction::Srgb => TF_SRGB,
        TransferFunction::St2084Pq => TF_ST2084_PQ,
        TransferFunction::Linear => TF_EXT_LINEAR,
    }
}

pub open spec fn spec_named_primaries(p: Primaries) -> Option<u32> {
    if p == spec_bt709() {
        Some(PRIMARIES_SRGB)
    } else if p == spec_bt2020() {
        Some(PRIMARIES_BT2020)
    } else {
        None
    }
}

/// What `get_information` reports of a description.
pub open spec fn spec_information(d: ImageDescription) -> InformationEvents {
    InformationEvents {
        primaries: d.primaries,
        primaries_named: spec_named_primaries(d.primaries),
        tf_named: spec_tf_wire(d.transfer),
        lum_min: spec_saturate(d.min_luminance),
        lum_max: spec_saturate(spec_round_cdm2(d.max_luminance)),
        lum_reference: spec_saturate(spec_round_cdm2(d.reference_white)),
        target_min: spec_saturate(d.min_luminance),
        target_max: spec_saturate(spec_round_cdm2(d.max_luminance)),
    }
}

fn saturate(v: u64) -> (r: u32)
    ensures
        r == spec_saturate(v),
{
    if v > u32::MAX as u64 {
        u32::MAX
    } else {
        v as u32
    }
}

fn round_cdm2(v: u64) -> (r: u64)
    ensures
        r == spec_round_cdm2(v),
{
    v / LUMINANCE_UNIT + if v % LUMINANCE_UNIT >= 5000 {
        1
    } else {
        0
    }
}

/// The information events describing `desc` (`done` is sent separately, after
/// the dispatch that created the info object).
pub fn information_events(desc: &ImageDescription) -> (info: InformationEvents)
    ensures
        info == spec_information(*desc),
{
    let p = desc.primaries;
    let primaries_named = if p == Primaries::bt709() {
        Some(PRIMARIES_SRGB)
    } else if p == Primaries::bt2020() {
        Some(PRIMARIES_BT2020)
    } else {
        None
    };
    let tf_named = match desc.transfer {
        TransferFunction::Srgb => TF_SRGB,
        TransferFunction::St2084Pq => TF_ST2084_PQ,
        TransferFunction::Linear => TF_EXT_LINEAR,
    };
    let max = saturate(round_cdm2(desc.max_luminance));
    InformationEvents {
        primaries: p,
        primaries_named,
        tf_named,
        lum_min: saturate(desc.min_luminance),
        lum_max: max,
        lum_reference: saturate(round_cdm2(desc.reference_white)),
        target_min: saturate(desc.min_luminance),
        target_max: max,
    }
}

/// Protocol errors of `wp_image_description_v1`.
#[derive(Debug, Clone, Copy, PartialEq, Eq, Structural)]
pub enum DescriptionError {
    NotReady,
    NoInformation,
}

impl DescriptionError {
    /// The protocol's code for this error.
    pub fn code(&self) -> (c: u32)
        ensures
            c == match self {
                DescriptionError::NotReady => 0u32,
                DescriptionError::NoInformation => 1,
            },
    {
        match self {
            DescriptionError::NotReady => 0,
            DescriptionError::NoInformation => 1,
        }
    }
}

/// Requests of `wp_image_description_v1`; `Other` stands for requests of
/// later protocol versions, which this version-1 global never receives.
#[derive(Debug, Clone, Copy, PartialEq, Eq, Structural)]
pub enum DescriptionRequest {
    GetInformation,
    Destroy,
    Other,
}

/// What a `wp_image_description_v1` request leads to.
#[derive(Debug, Clone, Copy, PartialEq, Eq)]
pub enum DescriptionOutcome {
    /// Create the info object, send these events, then defer `done`.
    SendInformation(InformationEvents),
    Rejected(Rejection<DescriptionError>),
    Nothing,
}

pub open spec fn spec_description_outcome(
    data: ImageDescriptionData,
    req: DescriptionRequest,
) -> DescriptionOutcome {
    match req {
        DescriptionRequest::GetInformation => match data.result {
            None => DescriptionOutcome::Rejected(
                Rejection {
                    error: DescriptionError::NotReady,
                    message: "image description is not ready",
                },
            ),
            Some(ready) => if !ready.allow_info {
                DescriptionOutcome::Rejected(
                    Rejection {
                        error: DescriptionError::NoInformation,
                        message: "get_information is not allowed on this image description",
                    },
                )
            } else {
                DescriptionOutcome::SendInformation(spec_information(ready.description))
            },
        },
        _ => DescriptionOutcome::Nothing,
    }
}

/// Decide a request on a `wp_image_description_v1`.
pub fn description_request(data: &ImageDescriptionData, req: DescriptionRequest) -> (r:
    DescriptionOutcome)
    ensures
        r == spec_description_outcome(*data, req),
{
    match req {
        DescriptionRequest::GetInformation => match &data.result {
            None => DescriptionOutcome::Rejected(
                Rejection {
                    error: DescriptionError::NotReady,
                    message: "image description is not ready",
                },
            ),
            Some(ready) => {
                if !ready.allow_info {
                    DescriptionOutcome::Rejected(
                        Rejection {
                            error: DescriptionError::NoInformation,
                            message: "get_information is not allowed on this image description",
                        },
                    )
                } else {
                    DescriptionOutcome::SendInformation(information_events(&ready.description))
                }
            },
        },
        _ => DescriptionOutcome::Nothing,
    }
}

// ---------------------------------------------------------------------------
// wp_image_description_creator_params_v1
// ---------------------------------------------------------------------------

/// Requests of `wp_image_description_creator_params_v1`, with the arguments the
/// decision reads.
#[derive(Debug, Clone, Copy, PartialEq, Eq, Structural)]
pub enum CreatorRequest {
    SetTfNamed { tf: u32 },
    SetTfPower,
    SetPrimariesNamed { primaries: u32 },
    SetPrimaries,
    SetLuminances { min_lum: u32, max_lum: u32, reference_lum: u32 },
    SetMasteringDisplayPrimaries,
    SetMasteringLuminance,
    SetMaxCll { max_cll: u32 },
    SetMaxFall { max_fall: u32 },
    Create,
    Other,
}

/// What a creator request leads to.
#[derive(Debug, Clone, Copy, PartialEq, Eq)]
pub enum CreatorOutcome {
    /// The parameter was recorded (or the request needs no answer).
    Accepted,
    Rejected(Rejection<CreatorError>),
    /// `create`: initialize the description object with this state and send
    /// `ready` with its identity.
    CreateDescription(ImageDescriptionData),
}

pub open spec fn spec_creator_rejection(
    error: CreatorError,
    message: &'static str,
) -> CreatorOutcome {
    CreatorOutcome::Rejected(Rejection { error, message })
}

/// The builder after a creator request and the outcome, given the identity
/// the next ready description would get.
pub open spec fn spec_creator_step(
    b: ParamsBuilder,
    next_id: u32,
    req: CreatorRequest,
) -> (ParamsBuilder, CreatorOutcome) {
    match req {
        CreatorRequest::SetTfNamed { tf } => if b.tf is Some {
            (b, spec_creator_rejection(CreatorError::AlreadySet, "transfer function already set"))
        } else {
            match spec_map_tf(tf) {
                Some(t) => (ParamsBuilder { tf: Some(t), ..b }, CreatorOutcome::Accepted),
                None => (
                    b,
                    spec_creator_rejection(CreatorError::InvalidTf, "unsupported transfer function"),
                ),
            }
        },
        CreatorRequest::SetPrimariesNamed { primaries } => if b.primaries is Some {
            (b, spec_creator_rejection(CreatorError::AlreadySet, "primaries already set"))
        } else {
            match spec_map_primaries(primaries) {
                Some(p) => (ParamsBuilder { primaries: Some(p), ..b }, CreatorOutcome::Accepted),
                None => (
                    b,
                    spec_creator_rejection(
                        CreatorError::InvalidPrimariesNamed,
                        "unsupported primaries",
                    ),
                ),
            }
        },
        CreatorRequest::SetLuminances { min_lum, max_lum, reference_lum } => if b.luminances is Some {
            (b, spec_creator_rejection(CreatorError::AlreadySet, "luminances already set"))
        } else if spec_cdm2(max_lum) <= min_lum || spec_cdm2(reference_lum) <= min_lum {
            (b, spec_creator_rejection(CreatorError::InvalidLuminance, "invalid luminance range"))
        } else {
            (
                ParamsBuilder {
                    luminances: Some(Luminances { min_lum, max_lum, reference_lum }),
                    ..b
                },
                CreatorOutcome::Accepted,
            )
        },
        CreatorRequest::SetMaxCll { max_cll } => (
            ParamsBuilder { max_cll: Some(max_cll), ..b },
            CreatorOutcome::Accepted,
        ),
        CreatorRequest::SetMaxFall { max_fall } => (
            ParamsBuilder { max_fall: Some(max_fall), ..b },
            CreatorOutcome::Accepted,
        ),
        CreatorRequest::SetTfPower => (
            b,
            spec_creator_rejection(
                CreatorError::UnsupportedFeature,
                "power transfer functions unsupported",
            ),
        ),
        CreatorRequest::SetPrimaries => (
            b,
            spec_creator_rejection(CreatorError::UnsupportedFeature, "custom primaries unsupported"),
        ),
        CreatorRequest::SetMasteringDisplayPrimaries | CreatorRequest::SetMasteringLuminance => (
            b,
            spec_creator_rejection(
                CreatorError::UnsupportedFeature,
                "mastering display target volume unsupported",
            ),
        ),
        CreatorRequest::Create => match spec_build(b) {
            Ok(d) => (b, CreatorOutcome::CreateDescription(spec_ready_data(next_id, d, false))),
            Err(BuildError::Protocol(e)) => (
                b,
                spec_creator_rejection(e, "invalid parametric image description"),
            ),
        },
        CreatorRequest::Other => (b, CreatorOutcome::Accepted),
    }
}

/// Decide a request on a `wp_image_description_creator_params_v1` whose
/// accumulated parameters are `builder`. Only `create` hands out an identity.
pub fn creator_request(
    builder: &mut ParamsBuilder,
    counter: &mut IdentityCounter,
    req: CreatorRequest,
) -> (r: CreatorOutcome)
    ensures
        (*final(builder), r) == spec_creator_step(*old(builder), old(counter).spec_next(), req),
        final(counter).spec_next() == if r is CreateDescription {
            spec_identity_successor(old(counter).spec_next())
        } else {
            old(counter).spec_next()
        },
{
    match req {
        CreatorRequest::SetTfNamed { tf } => {
            if builder.tf.is_some() {
                return CreatorOutcome::Rejected(
                    Rejection {
                        error: CreatorError::AlreadySet,
                        message: "transfer function already set",
                    },
                );
            }
            match map_tf(tf) {
                Some(t) => {
                    builder.tf = Some(t);
                    CreatorOutcome::Accepted
                },
                None => CreatorOutcome::Rejected(
                    Rejection {
                        error: CreatorError::InvalidTf,
                        message: "unsupported transfer function",
                    },
                ),
            }
        },
        CreatorRequest::SetPrimariesNamed { primaries } => {
            if builder.primaries.is_some() {
                return CreatorOutcome::Rejected(
                    Rejection { error: CreatorError::AlreadySet, message: "primaries already set" },
                );
            }
            match map_primaries(primaries) {
                Some(p) => {
                    builder.primaries = Some(p);
                    CreatorOutcome::Accepted
                },
                None => CreatorOutcome::Rejected(
                    Rejection {
                        error: CreatorError::InvalidPrimariesNamed,
                        message: "unsupported primaries",
                    },
                ),
            }
        },
        CreatorRequest::SetLuminances { min_lum, max_lum, reference_lum } => {
            if builder.luminances.is_some() {
                return CreatorOutcome::Rejected(
                    Rejection { error: CreatorError::AlreadySet, message: "luminances already set" },
                );
            }
            if cdm2(max_lum) <= min_lum as u64 || cdm2(reference_lum) <= min_lum as u64 {
                return CreatorOutcome::Rejected(
                    Rejection {
                        error: CreatorError::InvalidLuminance,
                        message: "invalid luminance range",
                    },
                );
            }
            builder.luminances = Some(Luminances { min_lum, max_lum, reference_lum });
            CreatorOutcome::Accepted
        },
        CreatorRequest::SetMaxCll { max_cll } => {
            builder.max_cll = Some(max_cll);
            CreatorOutcome::Accepted
        },
        CreatorRequest::SetMaxFall { max_fall } => {
            builder.max_fall = Some(max_fall);
            CreatorOutcome::Accepted
        },
        CreatorRequest::SetTfPower => CreatorOutcome::Rejected(
            Rejection {
                error: CreatorError::UnsupportedFeature,
                message: "power transfer functions unsupported",
            },
        ),
        CreatorRequest::SetPrimaries => CreatorOutcome::Rejected(
            Rejection {
                error: CreatorError::UnsupportedFeature,
                message: "custom primaries unsupported",
            },
        ),
        CreatorRequest::SetMasteringDisplayPrimaries | CreatorRequest::SetMasteringLuminance => {
            CreatorOutcome::Rejected(
                Rejection {
                    error: CreatorError::UnsupportedFeature,
                    message: "mastering display target volume unsupported",
                },
            )
        },
        CreatorRequest::Create => match builder.build() {
            Ok(desc) => CreatorOutcome::CreateDescription(
                make_ready_description(counter, desc, false),
            ),
            Err(BuildError::Protocol(e)) => CreatorOutcome::Rejected(
                Rejection { error: e, message: "invalid parametric image description" },
            ),
        },
        CreatorRequest::Other => CreatorOutcome::Accepted,
    }
}

// ---------------------------------------------------------------------------
// wp_color_manager_v1
// ---------------------------------------------------------------------------

/// Marks that a `wp_color_management_surface_v1` currently exists for a
/// surface, so a second `get_surface` raises `surface_exists`.
#[derive(Debug)]
pub struct SurfaceExistsMarker {
    claimed: bool,
}

impl Default for SurfaceExistsMarker {
    /// A marker with no color management surface.
    fn default() -> (m: SurfaceExistsMarker)
        ensures
            !m.spec_claimed(),
    {
        SurfaceExistsMarker::new()
    }
}

impl SurfaceExistsMarker {
    /// Whether a color management surface currently exists.
    pub closed spec fn spec_claimed(&self) -> bool {
        self.claimed
    }

    /// A marker with no color management surface.
    pub fn new() -> (m: SurfaceExistsMarker)
        ensures
            !m.spec_claimed(),
    {
        SurfaceExistsMarker { claimed: false }
    }

    /// Record that a color management surface now exists; returns whether
    /// one already existed.
    pub fn claim(&mut self) -> (already: bool)
        ensures
            already == old(self).spec_claimed(),
            final(self).spec_claimed(),
    {
        let already = self.claimed;
        self.claimed = true;
        already
    }

    /// Record that the color management surface is gone.
    pub fn release(&mut self)
        ensures
            !final(self).spec_claimed(),
    {
        self.claimed = false;
    }
}

/// What happens over the life of one `wl_surface` that bears on its
/// color-management-surface marker: a `get_surface` for it, a `destroy`
/// request on its color management surface, or that object being destroyed
/// (for example with its client). The last two find the marker only while the
/// `wl_surface` lives.
#[derive(Debug, Clone, Copy, PartialEq, Eq, Structural)]
pub enum ColorSurfaceEvent {
    GetSurface,
    Destroy { surface_alive: bool },
    Destroyed { surface_alive: bool },
}

/// Whether an event releases the marker.
pub open spec fn spec_releases_marker(e: ColorSurfaceEvent) -> bool {
    match e {
        ColorSurfaceEvent::GetSurface => false,
        ColorSurfaceEvent::Destroy { surface_alive } => surface_alive,
        ColorSurfaceEvent::Destroyed { surface_alive } => surface_alive,
    }
}

/// The marker's state after an event.
pub open spec fn spec_marker_step(claimed: bool, e: ColorSurfaceEvent) -> bool {
    if e is GetSurface {
        true
    } else if spec_releases_marker(e) {
        false
    } else {
        claimed
    }
}

/// The marker's state after a sequence of events.
pub open spec fn spec_marker_run(claimed: bool, events: Seq<ColorSurfaceEvent>) -> bool
    decreases events.len(),
{
    if events.len() == 0 {
        claimed
    } else {
        spec_marker_step(spec_marker_run(claimed, events.drop_last()), events.last())
    }
}

/// Apply an event to a surface's marker; returns whether a color management
/// surface existed before it (what `get_surface` is decided on).
pub fn surface_marker_event(marker: &mut SurfaceExistsMarker, event: ColorSurfaceEvent) -> (already:
    bool)
    ensures
        already == old(marker).spec_claimed(),
        final(marker).spec_claimed() == spec_marker_step(old(marker).spec_claimed(), event),
{
    match event {
        ColorSurfaceEvent::GetSurface => marker.claim(),
        ColorSurfaceEvent::Destroy { surface_alive } | ColorSurfaceEvent::Destroyed {
            surface_alive,
        } => {
            let already = marker.claimed;
            if surface_alive {
                marker.release();
            }
            already
        },
    }
}

/// Protocol errors of `wp_color_manager_v1`.
#[derive(Debug, Clone, Copy, PartialEq, Eq, Structural)]
pub enum ManagerError {
    UnsupportedFeature,
    SurfaceExists,
}

impl ManagerError {
    /// The protocol's code for this error.
    pub fn code(&self) -> (c: u32)
        ensures
            c == match self {
                ManagerError::UnsupportedFeature => 0u32,
                ManagerError::SurfaceExists => 1,
            },
    {
        match self {
            ManagerError::UnsupportedFeature => 0,
            ManagerError::SurfaceExists => 1,
        }
    }
}

/// Requests of `wp_color_manager_v1`. For `get_surface`, `already_claimed` is
/// what [`SurfaceExistsMarker::claim`] returned for the surface.
#[derive(Debug, Clone, Copy, PartialEq, Eq, Structural)]
pub enum ManagerRequest {
    GetOutput,
    GetSurface { already_claimed: bool },
    GetSurfaceFeedback,
    CreateIccCreator,
    CreateParametricCreator,
    CreateWindowsScrgb,
    Destroy,
    Other,
}

/// What a manager request leads to.
#[derive(Debug, Clone, Copy, PartialEq, Eq)]
pub enum ManagerOutcome {
    CreateOutput,
    CreateSurface,
    CreateSurfaceFeedback,
    /// A parametric creator starting from these (empty) parameters.
    CreateParametricCreator(ParamsBuilder),
    /// A description object with this state; send `ready` with its identity.
    CreateDescription(ImageDescriptionData),
    Rejected(Rejection<ManagerError>),
    Nothing,
}

pub open spec fn spec_manager_outcome(next_id: u32, req: ManagerRequest) -> ManagerOutcome {
    match req {
        ManagerRequest::GetOutput => ManagerOutcome::CreateOutput,
        ManagerRequest::GetSurface { already_claimed } => if already_claimed {
            ManagerOutcome::Rejected(
                Rejection {
                    error: ManagerError::SurfaceExists,
                    message: "a color management surface already exists for this wl_surface",
                },
            )
        } else {
            ManagerOutcome::CreateSurface
        },
        ManagerRequest::GetSurfaceFeedback => ManagerOutcome::CreateSurfaceFeedback,
        ManagerRequest::CreateParametricCreator => ManagerOutcome::CreateParametricCreator(
            spec_empty_builder(),
        ),
        // get_information is not allowed on Windows-scRGB descriptions.
        ManagerRequest::CreateWindowsScrgb => ManagerOutcome::CreateDescription(
            spec_ready_data(next_id, spec_windows_scrgb(), false),
        ),
        // The ICC feature is not advertised.
        ManagerRequest::CreateIccCreator => ManagerOutcome::Rejected(
            Rejection {
                error: ManagerError::UnsupportedFeature,
                message: "ICC image descriptions are not supported",
            },
        ),
        _ => ManagerOutcome::Nothing,
    }
}

/// Decide a request on the `wp_color_manager_v1`. Only
/// `create_windows_scrgb` hands out an identity.
pub fn manager_request(counter: &mut IdentityCounter, req: ManagerRequest) -> (r: ManagerOutcome)
    ensures
        r == spec_manager_outcome(old(counter).spec_next(), req),
        final(counter).spec_next() == if req is CreateWindowsScrgb {
            spec_identity_successor(old(counter).spec_next())
        } else {
            old(counter).spec_next()
        },
{
    match req {
        ManagerRequest::GetOutput => ManagerOutcome::CreateOutput,
        ManagerRequest::GetSurface { already_claimed } => {
            if already_claimed {
                ManagerOutcome::Rejected(
                    Rejection {
                        error: ManagerError::SurfaceExists,
                        message: "a color management surface already exists for this wl_surface",
                    },
                )
            } else {
                ManagerOutcome::CreateSurface
            }
        },
        ManagerRequest::GetSurfaceFeedback => ManagerOutcome::CreateSurfaceFeedback,
        ManagerRequest::CreateParametricCreator => ManagerOutcome::CreateParametricCreator(
            ParamsBuilder::default(),
        ),
        ManagerRequest::CreateWindowsScrgb => ManagerOutcome::CreateDescription(
            make_ready_description(counter, ImageDescription::windows_scrgb(), false),
        ),
        ManagerRequest::CreateIccCreator => ManagerOutcome::Rejected(
            Rejection {
                error: ManagerError::UnsupportedFeature,
                message: "ICC image descriptions are not supported",
            },
        ),
        _ => ManagerOutcome::Nothing,
    }
}

// ---------------------------------------------------------------------------
// Per-surface color state: wp_color_management_surface_v1
// ---------------------------------------------------------------------------

/// Committed color configuration of a surface.
#[derive(Debug, Clone, Copy, PartialEq, Eq, Structural)]
pub struct SurfaceColorConfig {
    pub description: ImageDescription,
    pub render_intent: RenderingIntent,
}

/// Double-buffered per-surface color state. `None` = untagged (treated as
/// sRGB). The pending copy takes effect on `wl_surface.commit`.
#[derive(Debug, Clone, Copy, PartialEq, Eq, Structural)]
pub struct ColorSurfaceCachedState {
    pub config: Option<SurfaceColorConfig>,
}

impl Default for ColorSurfaceCachedState {
    /// The state of a surface that was never tagged.
    fn default() -> (s: ColorSurfaceCachedState)
        ensures
            s.config is None,
    {
        ColorSurfaceCachedState::new()
    }
}

impl ColorSurfaceCachedState {
    /// The state of a surface that was never tagged: untagged (sRGB).
    pub fn new() -> (s: ColorSurfaceCachedState)
        ensures
            s.config is None,
    {
        ColorSurfaceCachedState { config: None }
    }

    /// The committed color configuration, if the surface is tagged.
    pub fn config(&self) -> (c: Option<SurfaceColorConfig>)
        ensures
            c == self.config,
    {
        self.config
    }

    /// Replace the configuration (used on the pending copy).
    pub fn set_config(&mut self, config: Option<SurfaceColorConfig>)
        ensures
            final(self).config == config,
            *final(self) == spec_cached_step(*old(self), *old(self), CachedStateOp::SetPending(
                config,
            )).0,
    {
        self.config = config;
    }

    /// The state a commit carries over: the pending state itself, which stays
    /// pending until replaced.
    pub fn commit(&mut self) -> (committed: ColorSurfaceCachedState)
        ensures
            committed == *old(self),
            *final(self) == *old(self),
    {
        *self
    }

    /// Apply a committed state: it replaces the current one.
    pub fn merge_into(self, into: &mut ColorSurfaceCachedState)
        ensures
            *final(into) == self,
    {
        *into = self;
    }
}

/// An operation on a surface's cached color state: storing a pending
/// configuration ([`ColorSurfaceCachedState::set_config`] on the pending
/// state), or a `wl_surface.commit` ([`ColorSurfaceCachedState::commit`] of the
/// pending state, then [`ColorSurfaceCachedState::merge_into`] the current one).
#[derive(Debug, Clone, Copy, PartialEq, Eq, Structural)]
pub enum CachedStateOp {
    SetPending(Option<SurfaceColorConfig>),
    Commit,
}

/// `(pending, current)` after an operation.
pub open spec fn spec_cached_step(
    pending: ColorSurfaceCachedState,
    current: ColorSurfaceCachedState,
    op: CachedStateOp,
) -> (ColorSurfaceCachedState, ColorSurfaceCachedState) {
    match op {
        CachedStateOp::SetPending(config) => (ColorSurfaceCachedState { config }, current),
        CachedStateOp::Commit => (pending, pending),
    }
}

/// `(pending, current)` after a sequence of operations.
pub open spec fn spec_cached_run(
    pending: ColorSurfaceCachedState,
    current: ColorSurfaceCachedState,
    ops: Seq<CachedStateOp>,
) -> (ColorSurfaceCachedState, ColorSurfaceCachedState)
    decreases ops.len(),
{
    if ops.len() == 0 {
        (pending, current)
    } else {
        let prev = spec_cached_run(pending, current, ops.drop_last());
        spec_cached_step(prev.0, prev.1, ops.last())
    }
}

/// Protocol errors of `wp_color_management_surface_v1`.
#[derive(Debug, Clone, Copy, PartialEq, Eq, Structural)]
pub enum SurfaceError {
    RenderIntent,
    ImageDescription,
    Inert,
}

impl SurfaceError {
    /// The protocol's code for this error.
    pub fn code(&self) -> (c: u32)
        ensures
            c == match self {
                SurfaceError::RenderIntent => 0u32,
                SurfaceError::ImageDescription => 1,
                SurfaceError::Inert => 2,
            },
    {
        match self {
            SurfaceError::RenderIntent => 0,
            SurfaceError::ImageDescription => 1,
            SurfaceError::Inert => 2,
        }
    }
}

/// Requests of `wp_color_management_surface_v1`. For `set_image_description`,
/// `description` is the state of the given description object (`None` when it
/// failed, or is not one of ours).
#[derive(Debug, Clone, Copy, PartialEq, Eq, Structural)]
pub enum SurfaceRequest {
    SetImageDescription { render_intent: u32, description: Option<ReadyImageDescription> },
    UnsetImageDescription,
    Destroy,
    Other,
}

/// What a color-management-surface request leads to.
#[derive(Debug, Clone, Copy, PartialEq, Eq)]
pub enum SurfaceOutcome {
    /// Store this pending configuration (applied on the next commit).
    SetPending(Option<SurfaceColorConfig>),
    /// Destroy acts like unset, and releases the surface's marker.
    UnsetAndRelease,
    Rejected(Rejection<SurfaceError>),
    Nothing,
}

/// Whether some advertised intent maps to `intent`.
pub open spec fn spec_intent_supported(intent: RenderingIntent) -> bool {
    exists|i: int|
        0 <= i < spec_supported_intents().len() && spec_map_intent(spec_supported_intents()[i])
            == Some(intent)
}

fn intent_supported(intent: RenderingIntent) -> (r: bool)
    ensures
        r == spec_intent_supported(intent),
{
    let mut supported: Vec<u32> = Vec::new();
    supported.push(RENDER_INTENT_PERCEPTUAL);
    assert(supported@ =~= spec_supported_intents());
    let mut k: usize = 0;
    while k < supported.len()
        invariant
            supported@ == spec_supported_intents(),
            k <= supported.len(),
            forall|j: int| 0 <= j < k ==> spec_map_intent(supported@[j]) != Some(intent),
        decreases supported.len() - k,
    {
        if map_intent(supported[k]) == Some(intent) {
            return true;
        }
        k = k + 1;
    }
    false
}

pub open spec fn spec_surface_outcome(surface_alive: bool, req: SurfaceRequest) -> SurfaceOutcome {
    let inert = SurfaceOutcome::Rejected(
        Rejection { error: SurfaceError::Inert, message: "the wl_surface no longer exists" },
    );
    match req {
        SurfaceRequest::SetImageDescription { render_intent, description } => if !surface_alive {
            inert
        } else if spec_map_intent(render_intent) is None || !spec_intent_supported(
            spec_map_intent(render_intent)->0,
        ) {
            SurfaceOutcome::Rejected(
                Rejection {
                    error: SurfaceError::RenderIntent,
                    message: "unsupported rendering intent",
                },
            )
        } else {
            match description {
                None => SurfaceOutcome::Rejected(
                    Rejection {
                        error: SurfaceError::ImageDescription,
                        message: "image description is not ready",
                    },
                ),
                Some(ready) => SurfaceOutcome::SetPending(
                    Some(
                        SurfaceColorConfig {
                            description: ready.description,
                            render_intent: spec_map_intent(render_intent)->0,
                        },
                    ),
                ),
            }
        },
        SurfaceRequest::UnsetImageDescription => if !surface_alive {
            inert
        } else {
            SurfaceOutcome::SetPending(None)
        },
        SurfaceRequest::Destroy => if surface_alive {
            SurfaceOutcome::UnsetAndRelease
        } else {
            SurfaceOutcome::Nothing
        },
        SurfaceRequest::Other => SurfaceOutcome::Nothing,
    }
}

/// Decide a request on a `wp_color_management_surface_v1`; `surface_alive`
/// tells whether its `wl_surface` still exists.
pub fn surface_request(surface_alive: bool, req: SurfaceRequest) -> (r: SurfaceOutcome)
    ensures
        r == spec_surface_outcome(surface_alive, req),
{
    match req {
        SurfaceRequest::SetImageDescription { render_intent, description } => {
            if !surface_alive {
                return SurfaceOutcome::Rejected(
                    Rejection {
                        error: SurfaceError::Inert,
                        message: "the wl_surface no longer exists",
                    },
                );
            }
            let intent = match map_intent(render_intent) {
                Some(i) => i,
                None => {
                    return SurfaceOutcome::Rejected(
                        Rejection {
                            error: SurfaceError::RenderIntent,
                            message: "unsupported rendering intent",
                        },
                    );
                },
            };
            if !intent_supported(intent) {
                return SurfaceOutcome::Rejected(
                    Rejection {
                        error: SurfaceError::RenderIntent,
                        message: "unsupported rendering intent",
                    },
                );
            }
            match description {
                None => SurfaceOutcome::Rejected(
                    Rejection {
                        error: SurfaceError::ImageDescription,
                        message: "image description is not ready",
                    },
                ),
                Some(ready) => SurfaceOutcome::SetPending(
                    Some(SurfaceColorConfig { description: ready.description, render_intent: intent }),
                ),
            }
        },
        SurfaceRequest::UnsetImageDescription => {
            if !surface_alive {
                SurfaceOutcome::Rejected(
                    Rejection {
                        error: SurfaceError::Inert,
                        message: "the wl_surface no longer exists",
                    },
                )
            } else {
                SurfaceOutcome::SetPending(None)
            }
        },
        SurfaceRequest::Destroy => {
            if surface_alive {
                SurfaceOutcome::UnsetAndRelease
            } else {
                SurfaceOutcome::Nothing
            }
        },
        SurfaceRequest::Other => SurfaceOutcome::Nothing,
    }
}

// ---------------------------------------------------------------------------
// wp_color_management_output_v1 and wp_color_management_surface_feedback_v1
// ---------------------------------------------------------------------------

/// Requests of `wp_color_management_output_v1`.
#[derive(Debug, Clone, Copy, PartialEq, Eq, Structural)]
pub enum OutputRequest {
    GetImageDescription,
    Destroy,
    Other,
}

/// What an output request leads to.
#[derive(Debug, Clone, Copy, PartialEq, Eq)]
pub enum OutputOutcome {
    /// Ask the compositor for the output's description and create a ready
    /// description object from it, with this `get_information` permission.
    DescribeOutput { allow_info: bool },
    /// Create an inert description object that delivers `failed`.
    Failed(DescriptionFailure),
    Nothing,
}

pub open spec fn spec_output_outcome(output_alive: bool, req: OutputRequest) -> OutputOutcome {
    match req {
        OutputRequest::GetImageDescription => if output_alive {
            OutputOutcome::DescribeOutput { allow_info: true }
        } else {
            OutputOutcome::Failed(
                DescriptionFailure {
                    cause: FailureCause::NoOutput,
                    message: "the output no longer exists",
                },
            )
        },
        _ => OutputOutcome::Nothing,
    }
}

/// Decide a request on a `wp_color_management_output_v1`; `output_alive`
/// tells whether its output still exists.
pub fn output_request(output_alive: bool, req: OutputRequest) -> (r: OutputOutcome)
    ensures
        r == spec_output_outcome(output_alive, req),
{
    match req {
        OutputRequest::GetImageDescription => {
            if output_alive {
                OutputOutcome::DescribeOutput { allow_info: true }
            } else {
                OutputOutcome::Failed(
                    DescriptionFailure {
                        cause: FailureCause::NoOutput,
                        message: "the output no longer exists",
                    },
                )
            }
        },
        _ => OutputOutcome::Nothing,
    }
}

/// Protocol errors of `wp_color_management_surface_feedback_v1`.
#[derive(Debug, Clone, Copy, PartialEq, Eq, Structural)]
pub enum FeedbackError {
    Inert,
}

impl FeedbackError {
    /// The protocol's code for this error.
    pub fn code(&self) -> (c: u32)
        ensures
            c == 0,
    {
        match self {
            FeedbackError::Inert => 0,
        }
    }
}

/// Requests of `wp_color_management_surface_feedback_v1`.
#[derive(Debug, Clone, Copy, PartialEq, Eq, Structural)]
pub enum FeedbackRequest {
    GetPreferred,
    GetPreferredParametric,
    Destroy,
    Other,
}

/// What a surface-feedback request leads to.
#[derive(Debug, Clone, Copy, PartialEq, Eq)]
pub enum FeedbackOutcome {
    /// Ask the compositor for the surface's preferred description and create a
    /// ready description object from it, with this `get_information`
    /// permission.
    DescribePreferred { allow_info: bool },
    Rejected(Rejection<FeedbackError>),
    Nothing,
}

pub open spec fn spec_feedback_outcome(surface_alive: bool, req: FeedbackRequest) -> FeedbackOutcome {
    match req {
        FeedbackRequest::GetPreferred | FeedbackRequest::GetPreferredParametric => if surface_alive {
            FeedbackOutcome::DescribePreferred { allow_info: true }
        } else {
            FeedbackOutcome::Rejected(
                Rejection { error: FeedbackError::Inert, message: "the wl_surface no longer exists" },
            )
        },
        _ => FeedbackOutcome::Nothing,
    }
}

/// Decide a request on a `wp_color_management_surface_feedback_v1`;
/// `surface_alive` tells whether its `wl_surface` still exists.
pub fn feedback_request(surface_alive: bool, req: FeedbackRequest) -> (r: FeedbackOutcome)
    ensures
        r == spec_feedback_outcome(surface_alive, req),
{
    match req {
        FeedbackRequest::GetPreferred | FeedbackRequest::GetPreferredParametric => {
            if surface_alive {
                FeedbackOutcome::DescribePreferred { allow_info: true }
            } else {
                FeedbackOutcome::Rejected(
                    Rejection {
                        error: FeedbackError::Inert,
                        message: "the wl_surface no longer exists",
                    },
                )
            }
        },
        _ => FeedbackOutcome::Nothing,
    }
}

// ---------------------------------------------------------------------------
// Laws of the protocol.
// ---------------------------------------------------------------------------

/// The creator accepts exactly the advertised names: a named transfer
/// function (or named primaries) maps into the color model if and only if it
/// is advertised on bind.
pub proof fn lemma_accepted_names_are_advertised(name: u32)
    ensures
        spec_map_tf(name) is Some <==> spec_supported_tfs().contains(name),
        spec_map_primaries(name) is Some <==> spec_supported_primaries().contains(name),
{
    if spec_map_tf(name) is Some {
        if name == TF_SRGB {
            assert(spec_supported_tfs()[0] == name);
        } else if name == TF_ST2084_PQ {
            assert(spec_supported_tfs()[1] == name);
        } else {
            assert(spec_supported_tfs()[2] == name);
        }
    }
    if spec_map_primaries(name) is Some {
        if name == PRIMARIES_SRGB {
            assert(spec_supported_primaries()[0] == name);
        } else {
            assert(spec_supported_primaries()[1] == name);
        }
    }
}

/// Each required property is set at most once: once a transfer function,
/// primaries or luminances were recorded, setting the same property again is
/// the protocol error `already_set` and changes nothing.
pub proof fn lemma_property_set_once(b: ParamsBuilder, next_id: u32, first: CreatorRequest, second: CreatorRequest)
    requires
        spec_creator_step(b, next_id, first).1 == CreatorOutcome::Accepted,
        (first is SetTfNamed && second is SetTfNamed) || (first is SetPrimariesNamed
            && second is SetPrimariesNamed) || (first is SetLuminances && second is SetLuminances),
    ensures
        ({
            let b1 = spec_creator_step(b, next_id, first).0;
            &&& spec_creator_step(b1, next_id, second).0 == b1
            &&& spec_creator_step(b1, next_id, second).1 matches CreatorOutcome::Rejected(rej)
                && rej.error == CreatorError::AlreadySet
        }),
{
}

/// `create` on a creator missing its transfer function or primaries is the
/// protocol error `incomplete_set`.
pub proof fn lemma_create_requires_tf_and_primaries(b: ParamsBuilder, next_id: u32)
    requires
        b.tf is None || b.primaries is None,
    ensures
        spec_creator_step(b, next_id, CreatorRequest::Create).1 == spec_creator_rejection(
            CreatorError::IncompleteSet,
            "invalid parametric image description",
        ),
{
}

/// The content light levels of a built description lie inside its luminance
/// range (above the minimum, at most the maximum), and the frame-average level
/// does not exceed the content level.
pub proof fn lemma_built_light_levels_in_range(b: ParamsBuilder)
    requires
        spec_build(b) is Ok,
    ensures
        ({
            let d = spec_build(b)->Ok_0;
            &&& d.max_cll matches Some(c) ==> d.min_luminance < c <= d.max_luminance
            &&& d.max_fall matches Some(f) ==> d.min_luminance < f <= d.max_luminance
            &&& (d.max_cll is Some && d.max_fall is Some) ==> d.max_fall->0 <= d.max_cll->0
        }),
{
    let d = spec_build(b)->Ok_0;
    if b.max_cll is Some && b.max_fall is Some {
        let c = b.max_cll->0;
        let f = b.max_fall->0;
        assert(f <= c);
        assert(f * LUMINANCE_UNIT <= c * LUMINANCE_UNIT) by (nonlinear_arith)
            requires
                f <= c,
        ;
    }
}

/// ST 2084 fixes the luminance swing at 10000 cd/m²: a PQ description built
/// with explicit luminances has its maximum exactly 10000 cd/m² above its
/// minimum, whatever `max_lum` was sent.
pub proof fn lemma_pq_luminance_swing_is_fixed(b: ParamsBuilder)
    requires
        spec_build(b) is Ok,
        b.tf == Some(TransferFunction::St2084Pq),
        b.luminances is Some,
    ensures
        spec_build(b)->Ok_0.max_luminance == spec_build(b)->Ok_0.min_luminance + PQ_MAX_LUMINANCE,
{
}

proof fn lemma_round_whole_cdm2(v: u32)
    ensures
        spec_round_cdm2(spec_cdm2(v)) == v,
{
    let x = v as int;
    assert((x * 10000) / 10000 == x) by (nonlinear_arith);
    assert((x * 10000) % 10000 == 0) by (nonlinear_arith);
}

/// Information reports the luminances a description was created with: for a
/// non-PQ description built from `set_luminances(min, max, reference)`,
/// `get_information` sends back exactly `min`, `max` and `reference`.
pub proof fn lemma_information_reports_set_luminances(b: ParamsBuilder)
    requires
        spec_build(b) is Ok,
        b.luminances is Some,
        b.tf != Some(TransferFunction::St2084Pq),
    ensures
        ({
            let info = spec_information(spec_build(b)->Ok_0);
            let l = b.luminances->0;
            &&& info.lum_min == l.min_lum
            &&& info.lum_max == l.max_lum
            &&& info.lum_reference == l.reference_lum
            &&& info.target_min == l.min_lum
            &&& info.target_max == l.max_lum
        }),
{
    let l = b.luminances->0;
    lemma_round_whole_cdm2(l.max_lum);
    lemma_round_whole_cdm2(l.reference_lum);
}

/// Information names map back into the color model: the reported named
/// transfer function maps to the description's transfer function, and the
/// reported named primaries (present for the two named gamuts) map to its
/// primaries.
pub proof fn lemma_information_names_round_trip(d: ImageDescription)
    ensures
        spec_map_tf(spec_information(d).tf_named) == Some(d.transfer),
        spec_information(d).primaries_named matches Some(n) ==> spec_map_primaries(n) == Some(
            d.primaries,
        ),
        (d.primaries == spec_bt709() || d.primaries == spec_bt2020())
            ==> spec_information(d).primaries_named is Some,
{
}

/// `get_information` is refused on parametric and Windows-scRGB descriptions
/// (`no_information`) and on failed ones (`not_ready`), and answered with the
/// description's information on output and preferred descriptions.
pub proof fn lemma_information_permission(
    b: ParamsBuilder,
    next_id: u32,
    d: ImageDescription,
    alive: bool,
)
    ensures
        spec_creator_step(b, next_id, CreatorRequest::Create).1 matches CreatorOutcome::CreateDescription(
            data,
        ) ==> spec_description_outcome(data, DescriptionRequest::GetInformation) matches DescriptionOutcome::Rejected(
            rej,
        ) && rej.error == DescriptionError::NoInformation,
        spec_manager_outcome(next_id, ManagerRequest::CreateWindowsScrgb) matches ManagerOutcome::CreateDescription(
            data,
        ) && spec_description_outcome(data, DescriptionRequest::GetInformation) matches DescriptionOutcome::Rejected(
            rej,
        ) && rej.error == DescriptionError::NoInformation,
        spec_description_outcome(
            ImageDescriptionData { result: None },
            DescriptionRequest::GetInformation,
        ) matches DescriptionOutcome::Rejected(rej) && rej.error == DescriptionError::NotReady,
        spec_output_outcome(alive, OutputRequest::GetImageDescription) matches OutputOutcome::DescribeOutput {
            allow_info,
        } ==> spec_description_outcome(
            spec_ready_data(next_id, d, allow_info),
            DescriptionRequest::GetInformation,
        ) == DescriptionOutcome::SendInformation(spec_information(d)),
        spec_feedback_outcome(alive, FeedbackRequest::GetPreferred) matches FeedbackOutcome::DescribePreferred {
            allow_info,
        } ==> spec_description_outcome(
            spec_ready_data(next_id, d, allow_info),
            DescriptionRequest::GetInformation,
        ) == DescriptionOutcome::SendInformation(spec_information(d)),
{
}

/// A surface has at most one color management surface object: `get_surface`
/// on a surface whose marker is claimed is the protocol error
/// `surface_exists`, and destroying the object (while the surface lives)
/// releases the marker so a new one may be created.
pub proof fn lemma_one_color_surface_per_surface(next_id: u32)
    ensures
        spec_manager_outcome(next_id, ManagerRequest::GetSurface { already_claimed: true }) matches ManagerOutcome::Rejected(
            rej,
        ) && rej.error == ManagerError::SurfaceExists,
        spec_manager_outcome(next_id, ManagerRequest::GetSurface { already_claimed: false })
            == ManagerOutcome::CreateSurface,
        spec_surface_outcome(true, SurfaceRequest::Destroy) == SurfaceOutcome::UnsetAndRelease,
{
}

/// Only the perceptual intent is implemented: on a live surface, a ready
/// description is stored if and only if the requested intent is perceptual;
/// any other intent, known or not, is the protocol error `render_intent`.
pub proof fn lemma_only_perceptual_intent_accepted(
    render_intent: u32,
    ready: ReadyImageDescription,
)
    ensures
        ({
            let out = spec_surface_outcome(
                true,
                SurfaceRequest::SetImageDescription { render_intent, description: Some(ready) },
            );
            &&& (out is SetPending) <==> render_intent == RENDER_INTENT_PERCEPTUAL
            &&& render_intent != RENDER_INTENT_PERCEPTUAL ==> (out matches SurfaceOutcome::Rejected(
                rej,
            ) && rej.error == SurfaceError::RenderIntent)
        }),
{
    if render_intent == RENDER_INTENT_PERCEPTUAL {
        assert(spec_map_intent(spec_supported_intents()[0]) == Some(RenderingIntent::Perceptual));
    }
}

/// While a color management surface exists, every `get_surface` for its
/// `wl_surface` is the protocol error `surface_exists`: after a `get_surface`
/// (at `i`) with no releasing destroy since, the marker is claimed and
/// `get_surface` is rejected.
pub proof fn lemma_get_surface_rejected_while_surface_exists(
    claimed: bool,
    events: Seq<ColorSurfaceEvent>,
    i: int,
    next_id: u32,
)
    requires
        0 <= i < events.len(),
        events[i] is GetSurface,
        forall|j: int| i < j < events.len() ==> !spec_releases_marker(#[trigger] events[j]),
    ensures
        spec_marker_run(claimed, events),
        spec_manager_outcome(
            next_id,
            ManagerRequest::GetSurface { already_claimed: spec_marker_run(claimed, events) },
        ) matches ManagerOutcome::Rejected(rej) && rej.error == ManagerError::SurfaceExists,
    decreases events.len(),
{
    if i < events.len() - 1 {
        let prefix = events.drop_last();
        assert forall|j: int| i < j < prefix.len() implies !spec_releases_marker(
            #[trigger] prefix[j],
        ) by {
            assert(prefix[j] == events[j]);
        }
        lemma_get_surface_rejected_while_surface_exists(claimed, prefix, i, next_id);
        assert(!spec_releases_marker(events[events.len() - 1]));
    }
}

/// Once the color management surface of a live `wl_surface` is destroyed
/// (at `i`), and no `get_surface` came since, `get_surface` creates a new one.
pub proof fn lemma_get_surface_allowed_after_destroy(
    claimed: bool,
    events: Seq<ColorSurfaceEvent>,
    i: int,
    next_id: u32,
)
    requires
        0 <= i < events.len(),
        spec_releases_marker(events[i]),
        forall|j: int| i < j < events.len() ==> !(#[trigger] events[j] is GetSurface),
    ensures
        !spec_marker_run(claimed, events),
        spec_manager_outcome(
            next_id,
            ManagerRequest::GetSurface { already_claimed: spec_marker_run(claimed, events) },
        ) == ManagerOutcome::CreateSurface,
    decreases events.len(),
{
    if i < events.len() - 1 {
        let prefix = events.drop_last();
        assert forall|j: int| i < j < prefix.len() implies !(#[trigger] prefix[j] is GetSurface) by {
            assert(prefix[j] == events[j]);
        }
        lemma_get_surface_allowed_after_destroy(claimed, prefix, i, next_id);
        assert(!(events[events.len() - 1] is GetSurface));
    }
}

/// A `wl_surface` that never had a color management surface may get one.
pub proof fn lemma_first_get_surface_allowed(next_id: u32)
    ensures
        spec_manager_outcome(
            next_id,
            ManagerRequest::GetSurface {
                already_claimed: spec_marker_run(false, Seq::<ColorSurfaceEvent>::empty()),
            },
        ) == ManagerOutcome::CreateSurface,
{
}

/// The pending configuration after operations is the one last set (at `i`).
proof fn lemma_pending_is_last_set(
    pending: ColorSurfaceCachedState,
    current: ColorSurfaceCachedState,
    ops: Seq<CachedStateOp>,
    i: int,
    x: Option<SurfaceColorConfig>,
)
    requires
        0 <= i < ops.len(),
        ops[i] == CachedStateOp::SetPending(x),
        forall|j: int| i < j < ops.len() ==> !(#[trigger] ops[j] is SetPending),
    ensures
        spec_cached_run(pending, current, ops).0.config == x,
    decreases ops.len(),
{
    if i < ops.len() - 1 {
        let prefix = ops.drop_last();
        assert forall|j: int| i < j < prefix.len() implies !(#[trigger] prefix[j] is SetPending) by {
            assert(prefix[j] == ops[j]);
        }
        lemma_pending_is_last_set(pending, current, prefix, i, x);
        assert(!(ops[ops.len() - 1] is SetPending));
    }
}

/// A description set on a surface is read back after the next commit: when
/// the configuration last set before the last commit is `x`, the committed
/// configuration is `x`.
pub proof fn lemma_read_after_commit(
    pending: ColorSurfaceCachedState,
    current: ColorSurfaceCachedState,
    ops: Seq<CachedStateOp>,
    i: int,
    k: int,
    x: Option<SurfaceColorConfig>,
)
    requires
        0 <= i < k < ops.len(),
        ops[i] == CachedStateOp::SetPending(x),
        ops[k] is Commit,
        forall|j: int| i < j < k ==> !(#[trigger] ops[j] is SetPending),
        forall|j: int| k < j < ops.len() ==> !(#[trigger] ops[j] is Commit),
    ensures
        spec_cached_run(pending, current, ops).1.config == x,
    decreases ops.len(),
{
    let prefix = ops.drop_last();
    if k < ops.len() - 1 {
        assert forall|j: int| i < j < k implies !(#[trigger] prefix[j] is SetPending) by {
            assert(prefix[j] == ops[j]);
        }
        assert forall|j: int| k < j < prefix.len() implies !(#[trigger] prefix[j] is Commit) by {
            assert(prefix[j] == ops[j]);
        }
        assert(prefix[i] == ops[i]);
        assert(prefix[k] == ops[k]);
        lemma_read_after_commit(pending, current, prefix, i, k, x);
        assert(!(ops[ops.len() - 1] is Commit));
    } else {
        assert forall|j: int| i < j < prefix.len() implies !(#[trigger] prefix[j] is SetPending) by {
            assert(prefix[j] == ops[j]);
        }
        assert(prefix[i] == ops[i]);
        lemma_pending_is_last_set(pending, current, prefix, i, x);
    }
}

/// Until a commit, the committed configuration does not change: setting a
/// pending configuration leaves the current one as it was; in particular a
/// surface whose state starts untagged stays untagged until a commit.
pub proof fn lemma_no_commit_keeps_current(
    pending: ColorSurfaceCachedState,
    current: ColorSurfaceCachedState,
    ops: Seq<CachedStateOp>,
)
    requires
        forall|j: int| 0 <= j < ops.len() ==> !(#[trigger] ops[j] is Commit),
    ensures
        spec_cached_run(pending, current, ops).1 == current,
    decreases ops.len(),
{
    if ops.len() > 0 {
        let prefix = ops.drop_last();
        assert forall|j: int| 0 <= j < prefix.len() implies !(#[trigger] prefix[j] is Commit) by {
            assert(prefix[j] == ops[j]);
        }
        lemma_no_commit_keeps_current(pending, current, prefix);
        assert(!(ops[ops.len() - 1] is Commit));
    }
}

/// What `create` builds from a parameter set, in terms of the parameters:
/// - without a transfer function or primaries it is `incomplete_set`; with a
///   frame-average level above the content level it is `invalid_luminance`;
/// - otherwise the luminance range is the one sent by `set_luminances`
///   (`min_lum` in 0.0001 cd/m², the others in cd/m²; for PQ the maximum is
///   always the minimum plus 10000 cd/m²), or by default 0.005 to
///   10000 cd/m² with a 203 cd/m² reference white for PQ and 0.2 to 80 cd/m²
///   with an 80 cd/m² reference white for the others; the description is
///   built exactly when each content light level sent lies above the minimum
///   and at most the maximum of that range;
/// - the description has the transfer function and primaries that were set,
///   that range and reference white, 1.0 at 10000 cd/m² for PQ and at the
///   reference white otherwise, the content light levels sent, no mastering
///   data, and the perceptual intent.
pub proof fn lemma_build_result(b: ParamsBuilder)
    ensures
        (b.tf is None || b.primaries is None) ==> spec_build(b) == Err::<ImageDescription, BuildError>(
            BuildError::Protocol(CreatorError::IncompleteSet),
        ),
        (b.tf is Some && b.primaries is Some && b.max_cll is Some && b.max_fall is Some
            && b.max_fall->0 > b.max_cll->0) ==> spec_build(b) == Err::<ImageDescription, BuildError>(
            BuildError::Protocol(CreatorError::InvalidLuminance),
        ),
        b.tf is Some && b.primaries is Some ==> ({
            let pq = b.tf->0 == TransferFunction::St2084Pq;
            let (min, max, reference): (int, int, int) = match b.luminances {
                Some(l) => (
                    l.min_lum as int,
                    if pq {
                        l.min_lum + 100_000_000
                    } else {
                        l.max_lum * 10000
                    },
                    l.reference_lum * 10000,
                ),
                None => if pq {
                    (50, 100_000_000, 2_030_000)
                } else {
                    (2000, 800_000, 800_000)
                },
            };
            let cll_in_range = match b.max_cll {
                Some(v) => min < v * 10000 <= max,
                None => true,
            };
            let fall_in_range = match b.max_fall {
                Some(v) => min < v * 10000 <= max,
                None => true,
            };
            &&& (spec_build(b) is Ok) <==> (!(b.max_cll is Some && b.max_fall is Some
                && b.max_fall->0 > b.max_cll->0) && cll_in_range && fall_in_range)
            &&& spec_build(b) is Err ==> spec_build(b) == Err::<ImageDescription, BuildError>(
                BuildError::Protocol(CreatorError::InvalidLuminance),
            )
            &&& spec_build(b) is Ok ==> {
                let d = spec_build(b)->Ok_0;
                &&& d.transfer == b.tf->0
                &&& d.primaries == b.primaries->0
                &&& d.min_luminance == min
                &&& d.max_luminance == max
                &&& d.reference_white == reference
                &&& d.luminance_scale == if pq {
                    100_000_000
                } else {
                    reference
                }
                &&& d.max_cll == match b.max_cll {
                    Some(c) => Some((c * 10000) as u64),
                    None => None,
                }
                &&& d.max_fall == match b.max_fall {
                    Some(f) => Some((f * 10000) as u64),
                    None => None,
                }
                &&& d.mastering is None
                &&& d.rendering_intent == RenderingIntent::Perceptual
            }
        }),
{
}

/// A named transfer function, sent while none is set, is stored as the value
/// its protocol name stands for (sRGB 9, ST 2084 PQ 11, ext_linear 5) and
/// nothing else changes; any other name is rejected with `invalid_tf` and the
/// parameters stay as they were.
pub proof fn lemma_creator_set_tf_named(b: ParamsBuilder, next_id: u32, tf: u32)
    requires
        b.tf is None,
    ensures
        ({
            let (b1, out) = spec_creator_step(b, next_id, CreatorRequest::SetTfNamed { tf });
            &&& (out == CreatorOutcome::Accepted) <==> (tf == 9 || tf == 11 || tf == 5)
            &&& tf == 9 ==> b1 == ParamsBuilder { tf: Some(TransferFunction::Srgb), ..b }
            &&& tf == 11 ==> b1 == ParamsBuilder { tf: Some(TransferFunction::St2084Pq), ..b }
            &&& tf == 5 ==> b1 == ParamsBuilder { tf: Some(TransferFunction::Linear), ..b }
            &&& !(tf == 9 || tf == 11 || tf == 5) ==> b1 == b && out is Rejected
                && out->Rejected_0.error == CreatorError::InvalidTf
        }),
{
}

/// Named primaries, sent while none are set, are stored as the chromaticities
/// their protocol name stands for (sRGB 1: BT.709; BT.2020 6), with the D65
/// white point, and nothing else changes; any other name is rejected with
/// `invalid_primaries_named` and the parameters stay as they were.
pub proof fn lemma_creator_set_primaries_named(b: ParamsBuilder, next_id: u32, primaries: u32)
    requires
        b.primaries is None,
    ensures
        ({
            let (b1, out) = spec_creator_step(
                b,
                next_id,
                CreatorRequest::SetPrimariesNamed { primaries },
            );
            &&& (out == CreatorOutcome::Accepted) <==> (primaries == 1 || primaries == 6)
            &&& b1.tf == b.tf
            &&& b1.luminances == b.luminances
            &&& b1.max_cll == b.max_cll
            &&& b1.max_fall == b.max_fall
            &&& primaries == 1 ==> b1.primaries is Some && xy_coordinates(b1.primaries->0)
                == seq![640_000i32, 330_000, 300_000, 600_000, 150_000, 60_000, 312_700, 329_000]
            &&& primaries == 6 ==> b1.primaries is Some && xy_coordinates(b1.primaries->0)
                == seq![708_000i32, 292_000, 170_000, 797_000, 131_000, 46_000, 312_700, 329_000]
            &&& !(primaries == 1 || primaries == 6) ==> b1 == b && out is Rejected
                && out->Rejected_0.error == CreatorError::InvalidPrimariesNamed
        }),
{
    lemma_named_primaries_chromaticities();
}

/// Luminances, sent while none are set, are stored exactly as sent when both
/// the maximum and the reference white lie above the minimum (the minimum in
/// 0.0001 cd/m², the others in cd/m²), and nothing else changes; otherwise they
/// are rejected with `invalid_luminance` and the parameters stay as they were.
pub proof fn lemma_creator_set_luminances(
    b: ParamsBuilder,
    next_id: u32,
    min_lum: u32,
    max_lum: u32,
    reference_lum: u32,
)
    requires
        b.luminances is None,
    ensures
        ({
            let (b1, out) = spec_creator_step(
                b,
                next_id,
                CreatorRequest::SetLuminances { min_lum, max_lum, reference_lum },
            );
            let valid = max_lum * 10000 > min_lum && reference_lum * 10000 > min_lum;
            &&& (out == CreatorOutcome::Accepted) <==> valid
            &&& valid ==> b1 == ParamsBuilder {
                luminances: Some(Luminances { min_lum, max_lum, reference_lum }),
                ..b
            }
            &&& !valid ==> b1 == b && out is Rejected && out->Rejected_0.error
                == CreatorError::InvalidLuminance
        }),
{
}

/// The content light levels are stored exactly as sent, whenever they are
/// sent, and nothing else changes.
pub proof fn lemma_creator_set_light_levels(b: ParamsBuilder, next_id: u32, level: u32)
    ensures
        spec_creator_step(b, next_id, CreatorRequest::SetMaxCll { max_cll: level }) == (
            ParamsBuilder { max_cll: Some(level), ..b },
            CreatorOutcome::Accepted,
        ),
        spec_creator_step(b, next_id, CreatorRequest::SetMaxFall { max_fall: level }) == (
            ParamsBuilder { max_fall: Some(level), ..b },
            CreatorOutcome::Accepted,
        ),
{
}

/// `create` leaves the parameters as they are; it yields a ready description,
/// with the next identity and no `get_information`, exactly when the
/// parameters build one, and that description is what they build; otherwise
/// it is rejected with the build's error.
pub proof fn lemma_creator_create(b: ParamsBuilder, next_id: u32)
    ensures
        ({
            let (b1, out) = spec_creator_step(b, next_id, CreatorRequest::Create);
            &&& b1 == b
            &&& (out is CreateDescription) <==> (spec_build(b) is Ok)
            &&& spec_build(b) is Ok ==> out->CreateDescription_0.result == Some(
                ReadyImageDescription {
                    description: spec_build(b)->Ok_0,
                    identity: next_id,
                    allow_info: false,
                },
            )
            &&& spec_build(b) is Err ==> out is Rejected && BuildError::Protocol(
                out->Rejected_0.error,
            ) == spec_build(b)->Err_0
        }),
{
}

/// What each manager request leads to, whatever identity comes next:
/// `get_output` and `get_surface_feedback` always create their object;
/// `get_surface` creates one unless one already exists for the surface
/// (`surface_exists`); a parametric creator starts with no parameter set;
/// `create_windows_scrgb` gives a ready linear-light description over the
/// BT.709 primaries with the next identity and no `get_information`; ICC is
/// refused (`unsupported_feature`); `destroy` needs nothing.
pub proof fn lemma_manager_outcomes(next_id: u32)
    ensures
        spec_manager_outcome(next_id, ManagerRequest::GetOutput) == ManagerOutcome::CreateOutput,
        spec_manager_outcome(next_id, ManagerRequest::GetSurfaceFeedback)
            == ManagerOutcome::CreateSurfaceFeedback,
        spec_manager_outcome(next_id, ManagerRequest::GetSurface { already_claimed: false })
            == ManagerOutcome::CreateSurface,
        spec_manager_outcome(next_id, ManagerRequest::GetSurface { already_claimed: true }) is Rejected,
        spec_manager_outcome(
            next_id,
            ManagerRequest::GetSurface { already_claimed: true },
        )->Rejected_0.error == ManagerError::SurfaceExists,
        spec_manager_outcome(next_id, ManagerRequest::CreateParametricCreator)
            == ManagerOutcome::CreateParametricCreator(
            ParamsBuilder { tf: None, primaries: None, luminances: None, max_cll: None, max_fall: None },
        ),
        spec_manager_outcome(next_id, ManagerRequest::CreateWindowsScrgb) is CreateDescription,
        ({
            let data = spec_manager_outcome(next_id, ManagerRequest::CreateWindowsScrgb)->CreateDescription_0;
            &&& data.result is Some
            &&& data.result->0.identity == next_id
            &&& !data.result->0.allow_info
            &&& data.result->0.description.transfer == TransferFunction::Linear
            &&& xy_coordinates(data.result->0.description.primaries) == seq![
                640_000i32,
                330_000,
                300_000,
                600_000,
                150_000,
                60_000,
                312_700,
                329_000,
            ]
        }),
        spec_manager_outcome(next_id, ManagerRequest::CreateIccCreator) is Rejected,
        spec_manager_outcome(next_id, ManagerRequest::CreateIccCreator)->Rejected_0.error
            == ManagerError::UnsupportedFeature,
        spec_manager_outcome(next_id, ManagerRequest::Destroy) == ManagerOutcome::Nothing,
{
    lemma_named_primaries_chromaticities();
}

} // verus!
