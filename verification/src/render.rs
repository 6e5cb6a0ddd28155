//! Render-element bookkeeping that does not touch the GPU: which surfaces get
//! the color-transform shader, the shader's transfer-function selector, the
//! surface element variants, and the damage of the HDR output element.
use vstd::prelude::*;

use crate::color::TransferFunction;

verus! {

/// The `source_tf` selector of the color-transform shader.
pub open spec fn spec_source_tf_code(tf: TransferFunction) -> u32 {
    match tf {
        TransferFunction::Linear => 0,
        TransferFunction::Srgb => 1,
        TransferFunction::St2084Pq => 2,
    }
}

/// The `source_tf` selector of the color-transform shader: 0 for linear,
/// 1 for sRGB, 2 for PQ.
pub fn source_tf_code(tf: TransferFunction) -> (code: u32)
    ensures
        code == spec_source_tf_code(tf),
{
    match tf {
        TransferFunction::Linear => 0,
        TransferFunction::Srgb => 1,
        TransferFunction::St2084Pq => 2,
    }
}

/// Whether a surface element is drawn through the color-transform shader.
///
/// On a color-managed output every surface is transformed; when the output
/// is tone-mapped to SDR, untagged surfaces (sRGB already) are drawn as they
/// are and only tagged ones are transformed.
pub fn wants_color_transform(color_managed: bool, tone_map_to_sdr: bool, tagged: bool) -> (r:
    bool)
    ensures
        r == (color_managed && (!tone_map_to_sdr || tagged)),
{
    color_managed && (!tone_map_to_sdr || tagged)
}

/// A surface element drawn through the color-transform shader: the plain
/// element and the shader uniforms computed for its source description.
pub struct ColorSurfaceRenderElement<W, U> {
    inner: W,
    uniforms: U,
}

impl<W, U> ColorSurfaceRenderElement<W, U> {
    pub closed spec fn spec_inner(&self) -> W {
        self.inner
    }

    pub closed spec fn spec_uniforms(&self) -> U {
        self.uniforms
    }

    /// Pair a plain surface element with its color-transform uniforms.
    pub fn from_parts(inner: W, uniforms: U) -> (e: Self)
        ensures
            e.spec_inner() == inner,
            e.spec_uniforms() == uniforms,
    {
        ColorSurfaceRenderElement { inner, uniforms }
    }

    /// The plain surface element.
    pub fn inner(&self) -> (inner: &W)
        ensures
            *inner == self.spec_inner(),
    {
        &self.inner
    }

    /// The plain surface element and the uniforms.
    pub fn into_parts(self) -> (parts: (W, U))
        ensures
            parts == (self.spec_inner(), self.spec_uniforms()),
    {
        (self.inner, self.uniforms)
    }
}

/// A surface element: plain, or drawn through the color-transform shader.
pub enum SurfaceRenderElement<W, U> {
    Wayland(W),
    Color(ColorSurfaceRenderElement<W, U>),
}

impl<W, U> SurfaceRenderElement<W, U> {
    /// The plain surface element, whichever the variant.
    pub fn wayland(&self) -> (elem: &W)
        ensures
            *elem == match self {
                SurfaceRenderElement::Wayland(e) => *e,
                SurfaceRenderElement::Color(c) => c.spec_inner(),
            },
    {
        match self {
            SurfaceRenderElement::Wayland(elem) => elem,
            SurfaceRenderElement::Color(elem) => elem.inner(),
        }
    }

    /// Whether the element goes through the color-transform shader.
    pub fn is_color_managed(&self) -> (r: bool)
        ensures
            r == (self is Color),
    {
        match self {
            SurfaceRenderElement::Wayland(_) => false,
            SurfaceRenderElement::Color(_) => true,
        }
    }

    /// The plain surface element, and the color-transform uniforms if the
    /// element had them.
    pub fn into_wayland_and_color_uniforms(self) -> (parts: (W, Option<U>))
        ensures
            parts == match self {
                SurfaceRenderElement::Wayland(e) => (e, None),
                SurfaceRenderElement::Color(c) => (c.spec_inner(), Some(c.spec_uniforms())),
            },
    {
        match self {
            SurfaceRenderElement::Wayland(elem) => (elem, None),
            SurfaceRenderElement::Color(elem) => {
                let (elem, uniforms) = elem.into_parts();
                (elem, Some(uniforms))
            },
        }
    }
}

/// Damage of the HDR output element since the commit `since` that the caller
/// has drawn: none if that is the element's current commit `current`, the
/// damage of the frame it shows otherwise (including when the caller has drawn
/// nothing yet).
pub fn hdr_output_damage_since<T: Copy>(damage: &Vec<T>, current: usize, since: Option<usize>) -> (d:
    Vec<T>)
    ensures
        since == Some(current) ==> d@ == Seq::<T>::empty(),
        since != Some(current) ==> d@ == damage@,
{
    let seen_current = match since {
        Some(commit) => commit == current,
        None => false,
    };
    let mut out: Vec<T> = Vec::new();
    if seen_current {
        return out;
    }
    let mut i: usize = 0;
    while i < damage.len()
        invariant
            i <= damage.len(),
            out@ == damage@.take(i as int),
        decreases damage.len() - i,
    {
        out.push(damage[i]);
        i = i + 1;
        assert(out@ =~= damage@.take(i as int));
    }
    assert(damage@.take(damage.len() as int) =~= damage@);
    out
}

} // verus!
