use wgpu_triangle::surface::{choose_surface, choose_surface_config, srgb_flags, SurfaceChoice};

#[test]
fn prefers_first_srgb_format() {
    let r = choose_surface(&vec![false, true, true], 2, 3, 640, 480);
    assert_eq!(
        r,
        Some(SurfaceChoice { format: 1, present_mode: 0, alpha_mode: 0, width: 640, height: 480 })
    );
}

#[test]
fn falls_back_to_first_format() {
    let r = choose_surface(&vec![false, false], 1, 1, 10, 20);
    assert_eq!(
        r,
        Some(SurfaceChoice { format: 0, present_mode: 0, alpha_mode: 0, width: 10, height: 20 })
    );
}

#[test]
fn empty_capabilities_give_none() {
    assert_eq!(choose_surface(&vec![], 1, 1, 10, 20), None);
    assert_eq!(choose_surface(&vec![true], 0, 1, 10, 20), None);
    assert_eq!(choose_surface(&vec![true], 1, 0, 10, 20), None);
}

#[test]
fn picks_srgb_format_among_wgpu_formats() {
    let formats = vec![
        wgpu::TextureFormat::Rgba8Unorm,
        wgpu::TextureFormat::Bgra8UnormSrgb,
        wgpu::TextureFormat::Rgba8UnormSrgb,
    ];
    let r = choose_surface_config(&formats, 3, 2, 800, 600);
    assert_eq!(
        r,
        Some(SurfaceChoice { format: 1, present_mode: 0, alpha_mode: 0, width: 800, height: 600 })
    );
}

#[test]
fn srgb_flags_follow_wgpu() {
    let formats = vec![
        wgpu::TextureFormat::Bgra8UnormSrgb,
        wgpu::TextureFormat::Bgra8Unorm,
        wgpu::TextureFormat::Rgba16Float,
    ];
    assert_eq!(srgb_flags(&formats), vec![true, false, false]);
}

#[test]
fn non_srgb_wgpu_formats_fall_back_to_first() {
    let formats = vec![wgpu::TextureFormat::Bgra8Unorm, wgpu::TextureFormat::Rgba8Unorm];
    let r = choose_surface_config(&formats, 1, 1, 1, 1);
    assert_eq!(
        r,
        Some(SurfaceChoice { format: 0, present_mode: 0, alpha_mode: 0, width: 1, height: 1 })
    );
    assert_eq!(choose_surface_config(&vec![], 1, 1, 1, 1), None);
}
