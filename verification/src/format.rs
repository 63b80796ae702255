//! Choice of the surface's pixel format.
//!
//! A surface lists the formats it supports in its own order of preference.
//! The shell renders into the first of them that is sRGB-encoded, and into
//! the first one listed when none is.

use vstd::prelude::*;
use wgpu::{AstcChannel, TextureFormat};

verus! {

/// Whether a format stores its colour channels sRGB-encoded.
pub open spec fn srgb_encoded(format: TextureFormat) -> bool {
    match format {
        TextureFormat::Rgba8UnormSrgb => true,
        TextureFormat::Bgra8UnormSrgb => true,
        TextureFormat::Bc1RgbaUnormSrgb => true,
        TextureFormat::Bc2RgbaUnormSrgb => true,
        TextureFormat::Bc3RgbaUnormSrgb => true,
        TextureFormat::Bc7RgbaUnormSrgb => true,
        TextureFormat::Etc2Rgb8UnormSrgb => true,
        TextureFormat::Etc2Rgb8A1UnormSrgb => true,
        TextureFormat::Etc2Rgba8UnormSrgb => true,
        TextureFormat::Astc { block: _, channel: AstcChannel::UnormSrgb } => true,
        _ => false,
    }
}

/// `wgpu::TextureFormat::is_srgb`. The method answers whether stripping the
/// `Srgb` suffix changes the format; that holds of the nine `..Srgb`
/// variants and of every ASTC format on the `UnormSrgb` channel, and of no
/// other format. Nothing here is proved: the clause restates the crate's
/// source.
pub assume_specification[ TextureFormat::is_srgb ](format: &TextureFormat) -> (srgb: bool)
    ensures
        srgb == srgb_encoded(*format),
;

/// Some format of the list is sRGB-encoded.
pub open spec fn has_srgb(formats: Seq<TextureFormat>) -> bool {
    exists|i: int| 0 <= i < formats.len() && srgb_encoded(#[trigger] formats[i])
}

/// Position `i` holds the first sRGB-encoded format of the list.
pub open spec fn is_first_srgb(formats: Seq<TextureFormat>, i: int) -> bool {
    &&& 0 <= i < formats.len()
    &&& srgb_encoded(formats[i])
    &&& forall|j: int| 0 <= j < i ==> !srgb_encoded(#[trigger] formats[j])
}

/// The position of the preferred format: that of the first sRGB-encoded
/// format where the list has one, the front of the list where it has none.
pub open spec fn preferred_index(formats: Seq<TextureFormat>) -> int {
    if has_srgb(formats) {
        choose|i: int| is_first_srgb(formats, i)
    } else {
        0
    }
}

/// The preferred format of a list, which an empty list does not have.
pub open spec fn preferred_format(formats: Seq<TextureFormat>) -> Option<TextureFormat> {
    if formats.len() == 0 {
        None
    } else {
        Some(formats[preferred_index(formats)])
    }
}

/// A list has at most one first sRGB-encoded format, and `preferred_index`
/// is its position.
pub proof fn lemma_first_srgb_is_preferred(formats: Seq<TextureFormat>, i: int)
    requires
        is_first_srgb(formats, i),
    ensures
        has_srgb(formats),
        preferred_index(formats) == i,
{
    let k = choose|k: int| is_first_srgb(formats, k);
    assert(is_first_srgb(formats, k));
    if k < i {
        assert(!srgb_encoded(formats[k]));
    } else if i < k {
        assert(!srgb_encoded(formats[i]));
    }
}

/// The order of the list decides: with an sRGB-encoded format in it, the
/// preferred format is the earliest such; without one, it is the format at
/// the front.
pub proof fn lemma_preferred_format(formats: Seq<TextureFormat>)
    requires
        formats.len() > 0,
    ensures
        0 <= preferred_index(formats) < formats.len(),
        has_srgb(formats) ==> is_first_srgb(formats, preferred_index(formats)),
        !has_srgb(formats) ==> preferred_index(formats) == 0,
{
    if has_srgb(formats) {
        let w = choose|i: int| 0 <= i < formats.len() && srgb_encoded(#[trigger] formats[i]);
        lemma_some_first_srgb(formats, w);
    }
}

/// Below any sRGB-encoded format of the list, or at it, stands the first one.
proof fn lemma_some_first_srgb(formats: Seq<TextureFormat>, w: int)
    requires
        0 <= w < formats.len(),
        srgb_encoded(formats[w]),
    ensures
        exists|i: int| is_first_srgb(formats, i),
    decreases w,
{
    if exists|j: int| 0 <= j < w && srgb_encoded(#[trigger] formats[j]) {
        let j = choose|j: int| 0 <= j < w && srgb_encoded(#[trigger] formats[j]);
        lemma_some_first_srgb(formats, j);
    } else {
        assert(is_first_srgb(formats, w));
    }
}

/// Picks the format to render into from the formats that the surface
/// supports: the first sRGB-encoded one, or the first one listed when none
/// is sRGB-encoded. An empty list has no format to offer.
pub fn choose_surface_format(formats: &Vec<TextureFormat>) -> (chosen: Option<TextureFormat>)
    ensures
        chosen == preferred_format(formats@),
        chosen is None <==> formats@.len() == 0,
        has_srgb(formats@) ==> exists|i: int|
            is_first_srgb(formats@, i) && chosen == Some(formats@[i]),
        formats@.len() > 0 && !has_srgb(formats@) ==> chosen == Some(formats@[0]),
{
    let mut i: usize = 0;
    while i < formats.len()
        invariant
            i <= formats@.len(),
            forall|j: int| 0 <= j < i ==> !srgb_encoded(#[trigger] formats@[j]),
        decreases formats@.len() - i,
    {
        let format: TextureFormat = formats[i];
        if format.is_srgb() {
            proof {
                assert(is_first_srgb(formats@, i as int));
                lemma_first_srgb_is_preferred(formats@, i as int);
            }
            return Some(format);
        }
        i += 1;
    }
    if formats.len() == 0 {
        None
    } else {
        Some(formats[0])
    }
}

} // verus!
