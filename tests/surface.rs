use raytracer::surface::{choose_format, preferred_index, SurfaceConfig, SurfaceSetupError};
use wgpu::{CompositeAlphaMode, PresentMode, TextureFormat};

fn caps() -> (Vec<TextureFormat>, Vec<PresentMode>, Vec<CompositeAlphaMode>) {
    (
        vec![TextureFormat::Bgra8Unorm, TextureFormat::Bgra8UnormSrgb, TextureFormat::Rgba8UnormSrgb],
        vec![PresentMode::Fifo, PresentMode::Mailbox],
        vec![CompositeAlphaMode::Opaque, CompositeAlphaMode::PreMultiplied],
    )
}

#[test]
fn preferred_index_picks_first_match() {
    assert_eq!(preferred_index(&vec![]), None);
    assert_eq!(preferred_index(&vec![false, true, true]), Some(1));
    assert_eq!(preferred_index(&vec![true, false]), Some(0));
    assert_eq!(preferred_index(&vec![false, false, false]), Some(0));
}

#[test]
fn choose_format_prefers_srgb() {
    let (formats, _, _) = caps();
    assert_eq!(choose_format(&formats), Some(TextureFormat::Bgra8UnormSrgb));
    assert_eq!(
        choose_format(&vec![TextureFormat::Rgba16Float, TextureFormat::Bgra8Unorm]),
        Some(TextureFormat::Rgba16Float)
    );
    assert_eq!(choose_format(&vec![]), None);
}

#[test]
fn config_from_capabilities() {
    let (f, p, a) = caps();
    let c = SurfaceConfig::new(800, 600, &f, &p, &a).unwrap();
    assert_eq!(c.width(), 800);
    assert_eq!(c.height(), 600);
    assert_eq!(c.format(), TextureFormat::Bgra8UnormSrgb);
    assert_eq!(c.present_mode(), PresentMode::Fifo);
    assert_eq!(c.alpha_mode(), CompositeAlphaMode::Opaque);
}

#[test]
fn config_errors() {
    let (f, p, a) = caps();
    assert_eq!(SurfaceConfig::new(0, 600, &f, &p, &a).unwrap_err(), SurfaceSetupError::ZeroSize);
    assert_eq!(SurfaceConfig::new(800, 0, &f, &p, &a).unwrap_err(), SurfaceSetupError::ZeroSize);
    assert_eq!(SurfaceConfig::new(800, 600, &vec![], &p, &a).unwrap_err(), SurfaceSetupError::NoFormat);
    assert_eq!(SurfaceConfig::new(800, 600, &f, &vec![], &a).unwrap_err(), SurfaceSetupError::NoPresentMode);
    assert_eq!(SurfaceConfig::new(800, 600, &f, &p, &vec![]).unwrap_err(), SurfaceSetupError::NoAlphaMode);
}

#[test]
fn accepted_resize_stores_size() {
    let (f, p, a) = caps();
    let mut c = SurfaceConfig::new(800, 600, &f, &p, &a).unwrap();
    assert!(c.resize(1024, 768));
    assert_eq!((c.width(), c.height()), (1024, 768));
    assert_eq!(c.format(), TextureFormat::Bgra8UnormSrgb);
    assert_eq!(c.present_mode(), PresentMode::Fifo);
}

#[test]
fn zero_resize_is_ignored() {
    let (f, p, a) = caps();
    let mut c = SurfaceConfig::new(800, 600, &f, &p, &a).unwrap();
    assert!(!c.resize(0, 768));
    assert!(!c.resize(1024, 0));
    assert!(!c.resize(0, 0));
    assert_eq!((c.width(), c.height()), (800, 600));
}
