use renderer::surface::{choose_surface, choose_surface_format, first_srgb_or_first};
use wgpu::{CompositeAlphaMode, PresentMode, TextureFormat};

#[test]
fn first_srgb_wins() {
    assert_eq!(first_srgb_or_first(&vec![false, true, true]), Some(1));
    assert_eq!(first_srgb_or_first(&vec![false, false]), Some(0));
    assert_eq!(first_srgb_or_first(&vec![true]), Some(0));
    assert_eq!(first_srgb_or_first(&vec![]), None);
}

#[test]
fn surface_format_prefers_srgb() {
    let formats = vec![TextureFormat::Bgra8Unorm, TextureFormat::Bgra8UnormSrgb];
    assert_eq!(choose_surface_format(&formats), Some(TextureFormat::Bgra8UnormSrgb));
    let plain = vec![TextureFormat::Rgba16Float, TextureFormat::Rgba8Unorm];
    assert_eq!(choose_surface_format(&plain), Some(TextureFormat::Rgba16Float));
    assert_eq!(choose_surface_format(&vec![]), None);
}

#[test]
fn surface_needs_every_capability() {
    let formats = vec![TextureFormat::Rgba8Unorm, TextureFormat::Rgba8UnormSrgb];
    let present = vec![PresentMode::Fifo, PresentMode::Mailbox];
    let alpha = vec![CompositeAlphaMode::Opaque];
    let c = choose_surface(&formats, &present, &alpha).unwrap();
    assert_eq!(c.format, TextureFormat::Rgba8UnormSrgb);
    assert_eq!(c.present_mode, PresentMode::Fifo);
    assert_eq!(c.alpha_mode, CompositeAlphaMode::Opaque);
    assert!(choose_surface(&formats, &vec![], &alpha).is_none());
    assert!(choose_surface(&formats, &present, &vec![]).is_none());
    assert!(choose_surface(&vec![], &present, &alpha).is_none());
}
