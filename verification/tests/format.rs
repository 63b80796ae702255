use wgpu::{AstcBlock, AstcChannel, TextureFormat};
use xapp::format::choose_surface_format;

/// What the graphics crate itself would pick, written with its own method.
fn first_srgb_or_front(formats: &[TextureFormat]) -> Option<TextureFormat> {
    let front = *formats.first()?;
    Some(formats.iter().copied().find(|format| format.is_srgb()).unwrap_or(front))
}

#[test]
fn first_srgb_format_is_chosen() {
    let formats = vec![
        TextureFormat::Bgra8Unorm,
        TextureFormat::Bgra8UnormSrgb,
        TextureFormat::Rgba8UnormSrgb,
    ];
    assert_eq!(choose_surface_format(&formats), Some(TextureFormat::Bgra8UnormSrgb));
}

#[test]
fn srgb_format_at_the_front_is_chosen() {
    let formats = vec![TextureFormat::Rgba8UnormSrgb, TextureFormat::Bgra8UnormSrgb];
    assert_eq!(choose_surface_format(&formats), Some(TextureFormat::Rgba8UnormSrgb));
}

#[test]
fn srgb_format_at_the_back_is_chosen() {
    let formats = vec![
        TextureFormat::Rgba16Float,
        TextureFormat::Rgb10a2Unorm,
        TextureFormat::Bgra8Unorm,
        TextureFormat::Rgba8UnormSrgb,
    ];
    assert_eq!(choose_surface_format(&formats), Some(TextureFormat::Rgba8UnormSrgb));
}

#[test]
fn front_format_is_chosen_when_none_is_srgb() {
    let formats = vec![
        TextureFormat::Rgba16Float,
        TextureFormat::Bgra8Unorm,
        TextureFormat::Rgba8Unorm,
    ];
    assert_eq!(choose_surface_format(&formats), Some(TextureFormat::Rgba16Float));
}

#[test]
fn single_format_is_chosen() {
    assert_eq!(
        choose_surface_format(&vec![TextureFormat::Bgra8Unorm]),
        Some(TextureFormat::Bgra8Unorm)
    );
    assert_eq!(
        choose_surface_format(&vec![TextureFormat::Bgra8UnormSrgb]),
        Some(TextureFormat::Bgra8UnormSrgb)
    );
}

#[test]
fn empty_list_offers_no_format() {
    assert_eq!(choose_surface_format(&Vec::new()), None);
}

#[test]
fn every_srgb_variant_is_preferred() {
    let srgb = [
        TextureFormat::Rgba8UnormSrgb,
        TextureFormat::Bgra8UnormSrgb,
        TextureFormat::Bc1RgbaUnormSrgb,
        TextureFormat::Bc2RgbaUnormSrgb,
        TextureFormat::Bc3RgbaUnormSrgb,
        TextureFormat::Bc7RgbaUnormSrgb,
        TextureFormat::Etc2Rgb8UnormSrgb,
        TextureFormat::Etc2Rgb8A1UnormSrgb,
        TextureFormat::Etc2Rgba8UnormSrgb,
        TextureFormat::Astc { block: AstcBlock::B4x4, channel: AstcChannel::UnormSrgb },
        TextureFormat::Astc { block: AstcBlock::B12x12, channel: AstcChannel::UnormSrgb },
    ];
    for format in srgb {
        let formats = vec![TextureFormat::Rgba8Unorm, format, TextureFormat::Bgra8UnormSrgb];
        assert_eq!(choose_surface_format(&formats), Some(format));
    }
}

#[test]
fn linear_variants_are_not_preferred() {
    let linear = [
        TextureFormat::Rgba8Unorm,
        TextureFormat::Bgra8Unorm,
        TextureFormat::Bc1RgbaUnorm,
        TextureFormat::Bc7RgbaUnorm,
        TextureFormat::Etc2Rgb8Unorm,
        TextureFormat::Rgba16Float,
        TextureFormat::Depth32Float,
        TextureFormat::Astc { block: AstcBlock::B4x4, channel: AstcChannel::Unorm },
        TextureFormat::Astc { block: AstcBlock::B4x4, channel: AstcChannel::Hdr },
    ];
    for format in linear {
        let formats = vec![TextureFormat::R8Unorm, format];
        assert_eq!(choose_surface_format(&formats), Some(TextureFormat::R8Unorm));
    }
}

#[test]
fn choice_agrees_with_the_graphics_crate() {
    let pool = [
        TextureFormat::Bgra8Unorm,
        TextureFormat::Bgra8UnormSrgb,
        TextureFormat::Rgba8Unorm,
        TextureFormat::Rgba8UnormSrgb,
        TextureFormat::Rgba16Float,
        TextureFormat::Astc { block: AstcBlock::B8x8, channel: AstcChannel::UnormSrgb },
    ];
    for a in pool {
        for b in pool {
            for c in pool {
                let formats = vec![a, b, c];
                assert_eq!(choose_surface_format(&formats), first_srgb_or_front(&formats));
            }
        }
    }
}

#[test]
fn order_of_the_list_decides_between_srgb_formats() {
    let one = vec![TextureFormat::Rgba8UnormSrgb, TextureFormat::Bgra8UnormSrgb];
    let other = vec![TextureFormat::Bgra8UnormSrgb, TextureFormat::Rgba8UnormSrgb];
    assert_eq!(choose_surface_format(&one), Some(TextureFormat::Rgba8UnormSrgb));
    assert_eq!(choose_surface_format(&other), Some(TextureFormat::Bgra8UnormSrgb));
}
