use halcore::errors::HalError;
use halcore::swapchain::{
    Extent2D, PresentMode, SurfaceCaps, SurfaceFormat, SwapchainManager, FALLBACK_FORMAT_CODE,
};

fn caps(
    min_w: u32,
    min_h: u32,
    max_w: u32,
    max_h: u32,
    min_count: u32,
    max_count: u32,
) -> SurfaceCaps {
    SurfaceCaps {
        min_extent: Extent2D { width: min_w, height: min_h },
        max_extent: Extent2D { width: max_w, height: max_h },
        min_image_count: min_count,
        max_image_count: max_count,
    }
}

fn srgb(code: u32) -> SurfaceFormat {
    SurfaceFormat { code, srgb: true }
}

fn linear(code: u32) -> SurfaceFormat {
    SurfaceFormat { code, srgb: false }
}

#[test]
fn extent_and_image_count_respect_caps_bounds() {
    let c = caps(100, 100, 200, 150, 2, 5);
    let mut m = SwapchainManager::new();
    let cfg = m
        .configure(&c, &Some(vec![srgb(9)]), Extent2D { width: 1024, height: 768 })
        .unwrap();
    assert_eq!(cfg.extent.width, 200);
    assert_eq!(cfg.extent.height, 150);
    assert!(cfg.extent.width >= c.min_extent.width && cfg.extent.width <= c.max_extent.width);
    assert!(cfg.extent.height >= c.min_extent.height && cfg.extent.height <= c.max_extent.height);
    assert!(cfg.image_count >= c.min_image_count && cfg.image_count <= c.max_image_count);
    assert_eq!(cfg.image_count, 3);
    assert_eq!(cfg.present_mode, PresentMode::Fifo);
}

#[test]
fn desired_extent_below_minimum_is_raised() {
    let c = caps(640, 480, 4096, 4096, 1, 8);
    let mut m = SwapchainManager::new();
    let cfg = m.configure(&c, &None, Extent2D { width: 32, height: 6000 }).unwrap();
    assert_eq!(cfg.extent, Extent2D { width: 640, height: 4096 });
}

#[test]
fn desired_extent_within_bounds_is_kept() {
    let c = caps(1, 1, 4096, 4096, 1, 8);
    let mut m = SwapchainManager::new();
    let cfg = m.configure(&c, &None, Extent2D { width: 1024, height: 768 }).unwrap();
    assert_eq!(cfg.extent, Extent2D { width: 1024, height: 768 });
}

#[test]
fn image_count_clamps_to_minimum_and_maximum() {
    let mut m = SwapchainManager::new();
    let high = caps(1, 1, 100, 100, 4, 9);
    assert_eq!(m.configure(&high, &None, Extent2D { width: 10, height: 10 }).unwrap().image_count, 4);
    let low = caps(1, 1, 100, 100, 1, 2);
    assert_eq!(m.configure(&low, &None, Extent2D { width: 10, height: 10 }).unwrap().image_count, 2);
    let wide = caps(1, 1, 100, 100, 1, 8);
    assert_eq!(m.configure(&wide, &None, Extent2D { width: 10, height: 10 }).unwrap().image_count, 3);
}

#[test]
fn srgb_entry_is_preferred() {
    let c = caps(1, 1, 100, 100, 1, 8);
    let mut m = SwapchainManager::new();
    let formats = Some(vec![linear(7), srgb(9), srgb(11)]);
    let cfg = m.configure(&c, &formats, Extent2D { width: 10, height: 10 }).unwrap();
    assert_eq!(cfg.format, srgb(9));
}

#[test]
fn first_entry_chosen_when_no_srgb() {
    let c = caps(1, 1, 100, 100, 1, 8);
    let mut m = SwapchainManager::new();
    let formats = Some(vec![linear(7), linear(8)]);
    let cfg = m.configure(&c, &formats, Extent2D { width: 10, height: 10 }).unwrap();
    assert_eq!(cfg.format, linear(7));
}

#[test]
fn fallback_format_chosen_when_no_list() {
    let c = caps(1, 1, 100, 100, 1, 8);
    let mut m = SwapchainManager::new();
    let cfg = m.configure(&c, &None, Extent2D { width: 10, height: 10 }).unwrap();
    assert_eq!(cfg.format.code, FALLBACK_FORMAT_CODE);
    assert!(cfg.format.srgb);
}

#[test]
fn zero_area_extent_is_transient_failure() {
    // A minimized window: the surface pins the extent to zero width.
    let c = caps(0, 0, 0, 768, 1, 8);
    let mut m = SwapchainManager::new();
    let r = m.configure(&c, &None, Extent2D { width: 1024, height: 768 });
    assert_eq!(r, Err(HalError::SwapchainCreateFailed));
    // The manager is untouched: nothing was configured.
    assert!(m.config.is_none());
    assert_eq!(m.render_area.width, 0);
    assert_eq!(m.render_area.height, 0);
}

#[test]
fn configure_twice_with_unchanged_caps_is_idempotent() {
    let c = caps(100, 100, 2000, 2000, 2, 6);
    let formats = Some(vec![linear(7), srgb(9)]);
    let desired = Extent2D { width: 1024, height: 768 };
    let mut m = SwapchainManager::new();
    let first = m.configure(&c, &formats, desired).unwrap();
    let second = m.configure(&c, &formats, desired).unwrap();
    assert_eq!(first.extent, second.extent);
    assert_eq!(first.image_count, second.image_count);
    assert_eq!(first, second);
    // Feeding the derived extent back in changes nothing either.
    let third = m.configure(&c, &formats, second.extent).unwrap();
    assert_eq!(second, third);
}

#[test]
fn render_area_mirrors_configured_extent() {
    let c = caps(1, 1, 4096, 4096, 1, 8);
    let mut m = SwapchainManager::new();
    let cfg = m.configure(&c, &None, Extent2D { width: 800, height: 600 }).unwrap();
    assert_eq!(m.render_area.x, 0);
    assert_eq!(m.render_area.y, 0);
    assert_eq!(m.render_area.width, cfg.extent.width);
    assert_eq!(m.render_area.height, cfg.extent.height);
}
