use surface_lifecycle::surface::{
    FrameDropState, PhysicalSize, PresentMode, SurfaceConfiguration, TextureUsage,
};

#[test]
fn first_frame_counts_as_dropped() {
    assert_eq!(FrameDropState::initial(), FrameDropState { dropped: true });
}

#[test]
fn size_with_area_is_not_minimized() {
    assert!(!PhysicalSize { width: 1, height: 1 }.minimized());
    assert!(!PhysicalSize { width: 1280, height: 720 }.minimized());
    assert!(!PhysicalSize { width: u32::MAX, height: u32::MAX }.minimized());
}

#[test]
fn size_without_area_is_minimized() {
    assert!(PhysicalSize { width: 0, height: 0 }.minimized());
    assert!(PhysicalSize { width: 0, height: 720 }.minimized());
    assert!(PhysicalSize { width: 1280, height: 0 }.minimized());
}

#[test]
fn new_configuration_renders_with_vertical_sync() {
    let config = SurfaceConfiguration::new(
        wgpu::TextureFormat::Bgra8UnormSrgb,
        PhysicalSize { width: 1280, height: 720 },
    );
    assert_eq!(
        config,
        Some(SurfaceConfiguration {
            usage: TextureUsage::RenderAttachment,
            format: wgpu::TextureFormat::Bgra8UnormSrgb,
            width: 1280,
            height: 720,
            present_mode: PresentMode::Fifo,
        })
    );
}

#[test]
fn new_configuration_keeps_the_format() {
    let size = PhysicalSize { width: 2, height: 3 };
    let srgb = SurfaceConfiguration::new(wgpu::TextureFormat::Rgba8UnormSrgb, size).unwrap();
    let float = SurfaceConfiguration::new(wgpu::TextureFormat::Rgba16Float, size).unwrap();
    assert_eq!(srgb.format, wgpu::TextureFormat::Rgba8UnormSrgb);
    assert_eq!(float.format, wgpu::TextureFormat::Rgba16Float);
    assert_ne!(srgb, float);
}

#[test]
fn new_configuration_refuses_a_window_without_area() {
    let format = wgpu::TextureFormat::Bgra8Unorm;
    assert_eq!(SurfaceConfiguration::new(format, PhysicalSize { width: 0, height: 600 }), None);
    assert_eq!(SurfaceConfiguration::new(format, PhysicalSize { width: 800, height: 0 }), None);
    assert_eq!(SurfaceConfiguration::new(format, PhysicalSize { width: 0, height: 0 }), None);
}
