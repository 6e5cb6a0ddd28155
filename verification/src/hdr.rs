//! HDR client buffer formats, and their intersection with what the renderer
//! can import.
//!
//! Formats are DRM fourcc codes. Dmabuf formats are advertised to clients
//! from the renderer's own format set; this list gates which of them niri
//! accepts for HDR content:
//! - `ABGR16161616F` / `XBGR16161616F`: FP16, for Windows-scRGB clients;
//! - `ABGR2101010` / `XBGR2101010`: 10-bit, for PQ/BT.2020 clients.
//!
//! An image description stays valid on any buffer format (a PQ description on
//! an 8-bit buffer is legal, just banded): the list gates formats and import
//! paths, not which descriptions are accepted.
use vstd::prelude::*;

verus! {

/// DRM fourcc `AB4H`: 16-bit float ABGR.
pub const FOURCC_ABGR16161616F: u32 = 1211384385;
/// DRM fourcc `XB4H`: 16-bit float XBGR.
pub const FOURCC_XBGR16161616F: u32 = 1211384408;
/// DRM fourcc `AB30`: 10-bit ABGR.
pub const FOURCC_ABGR2101010: u32 = 808665665;
/// DRM fourcc `XB30`: 10-bit XBGR.
pub const FOURCC_XBGR2101010: u32 = 808665688;

/// The client dmabuf buffer formats niri accepts for HDR content, in order.
pub open spec fn spec_hdr_client_dmabuf_formats() -> Seq<u32> {
    seq![FOURCC_ABGR16161616F, FOURCC_XBGR16161616F, FOURCC_ABGR2101010, FOURCC_XBGR2101010]
}

/// The client dmabuf buffer formats niri accepts for HDR content.
pub fn hdr_client_dmabuf_formats() -> (formats: Vec<u32>)
    ensures
        formats@ == spec_hdr_client_dmabuf_formats(),
{
    let mut formats: Vec<u32> = Vec::new();
    formats.push(FOURCC_ABGR16161616F);
    formats.push(FOURCC_XBGR16161616F);
    formats.push(FOURCC_ABGR2101010);
    formats.push(FOURCC_XBGR2101010);
    assert(formats@ =~= spec_hdr_client_dmabuf_formats());
    formats
}

/// The HDR formats, in their own order, whose code the renderer reports
/// with any modifier.
pub open spec fn spec_importable(available: Seq<u32>) -> Seq<u32> {
    spec_hdr_client_dmabuf_formats().filter(|code: u32| available.contains(code))
}

/// Returns the formats of the HDR list that the renderer can actually import,
/// given the fourcc codes of its reported dmabuf format set (any modifier).
pub fn importable_hdr_dmabuf_formats(available: &Vec<u32>) -> (formats: Vec<u32>)
    ensures
        formats@ == spec_importable(available@),
{
    let hdr = hdr_client_dmabuf_formats();
    let mut formats: Vec<u32> = Vec::new();
    let mut i: usize = 0;
    while i < hdr.len()
        invariant
            hdr@ == spec_hdr_client_dmabuf_formats(),
            i <= hdr.len(),
            formats@ == hdr@.take(i as int).filter(|c: u32| available@.contains(c)),
        decreases hdr.len() - i,
    {
        let code = hdr[i];
        let mut found = false;
        let mut j: usize = 0;
        while j < available.len()
            invariant
                j <= available.len(),
                found <==> exists|k: int| 0 <= k < j && available@[k] == code,
            decreases available.len() - j,
        {
            if available[j] == code {
                found = true;
            }
            j = j + 1;
        }
        proof {
            reveal_with_fuel(Seq::<_>::filter, 1);
            assert(hdr@.take(i + 1).drop_last() =~= hdr@.take(i as int));
            assert(hdr@.take(i + 1).last() == code);
            assert(found == available@.contains(code));
        }
        if found {
            formats.push(code);
        }
        i = i + 1;
    }
    assert(hdr@.take(hdr.len() as int) =~= hdr@);
    formats
}

/// The HDR client formats are, in this order, the DRM fourccs `AB4H`
/// (ABGR16161616F), `XB4H` (XBGR16161616F), `AB30` (ABGR2101010) and `XB30`
/// (XBGR2101010). Each of them is importable exactly when the renderer reports
/// it; no other code ever is; and the importable formats keep the list's order
/// and hold no code twice.
pub proof fn lemma_importable_formats(available: Seq<u32>, code: u32)
    ensures
        spec_hdr_client_dmabuf_formats() == seq![1211384385u32, 1211384408, 808665665, 808665688],
        spec_importable(available).contains(code) <==> (available.contains(code) && (code
            == 1211384385 || code == 1211384408 || code == 808665665 || code == 808665688)),
        spec_importable(available).no_duplicates(),
{
    broadcast use vstd::seq_lib::group_filter_ensures;

    let hdr = spec_hdr_client_dmabuf_formats();
    assert(hdr =~= seq![1211384385u32, 1211384408, 808665665, 808665688]);
    let pred = |c: u32| available.contains(c);
    if spec_importable(available).contains(code) {
        hdr.lemma_filter_contains_rev(pred, code);
        let k = choose|k: int| 0 <= k < spec_importable(available).len()
            && spec_importable(available)[k] == code;
        hdr.lemma_filter_pred(pred, k);
    }
    if available.contains(code) && (code == 1211384385 || code == 1211384408 || code == 808665665
        || code == 808665688) {
        let i: int = if code == 1211384385 {
            0
        } else if code == 1211384408 {
            1
        } else if code == 808665665 {
            2
        } else {
            3
        };
        assert(hdr[i] == code);
        hdr.lemma_filter_contains(pred, i);
    }
    assert(hdr.no_duplicates());
    lemma_filter_no_duplicates(hdr, pred);
}

proof fn lemma_filter_no_duplicates(s: Seq<u32>, pred: spec_fn(u32) -> bool)
    requires
        s.no_duplicates(),
    ensures
        s.filter(pred).no_duplicates(),
    decreases s.len(),
{
    broadcast use vstd::seq_lib::group_filter_ensures;

    reveal_with_fuel(Seq::<_>::filter, 1);
    if s.len() > 0 {
        let rest = s.drop_last();
        assert(rest.no_duplicates());
        lemma_filter_no_duplicates(rest, pred);
        if pred(s.last()) {
            let f = rest.filter(pred);
            if f.contains(s.last()) {
                rest.lemma_filter_contains_rev(pred, s.last());
                let k = choose|k: int| 0 <= k < rest.len() && rest[k] == s.last();
                assert(s[k] == s[s.len() - 1]);
            }
            assert(f.push(s.last()).no_duplicates());
        }
    }
}

} // verus!
