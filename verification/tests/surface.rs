use path_tracer::gpu::{TextureFormat, TextureUsages};
use path_tracer::surface::{
    choose_surface_format, configure_surface, recover, PresentMode, Recovery, SurfaceConfiguration,
    SurfaceError, FRAME_LATENCY,
};

#[test]
fn first_presentable_format_wins() {
    let formats = vec![
        TextureFormat::Other,
        TextureFormat::Rgba32Float,
        TextureFormat::Bgra8Unorm,
        TextureFormat::Rgba8Unorm,
    ];
    assert_eq!(choose_surface_format(&formats), Some(2));
    let formats = vec![TextureFormat::Rgba8Unorm, TextureFormat::Bgra8Unorm];
    assert_eq!(choose_surface_format(&formats), Some(0));
}

#[test]
fn no_presentable_format() {
    assert_eq!(choose_surface_format(&vec![]), None);
    assert_eq!(choose_surface_format(&vec![TextureFormat::Other, TextureFormat::Rgba32Float]), None);
    assert_eq!(configure_surface(&vec![TextureFormat::Other], 800, 600), None);
    assert_eq!(configure_surface(&vec![], 800, 600), None);
}

#[test]
fn configuration_of_a_fresh_surface() {
    let formats = vec![TextureFormat::Other, TextureFormat::Bgra8Unorm];
    assert_eq!(
        configure_surface(&formats, 800, 600),
        Some(SurfaceConfiguration {
            usage: TextureUsages {
                copy_src: false,
                copy_dst: false,
                texture_binding: false,
                storage_binding: false,
                render_attachment: true,
            },
            format: TextureFormat::Bgra8Unorm,
            format_index: 1,
            width: 800,
            height: 600,
            present_mode: PresentMode::AutoVsync,
            desired_maximum_frame_latency: 3,
        })
    );
    assert_eq!(FRAME_LATENCY, 3);
}

#[test]
fn resize_takes_a_proper_size() {
    let mut config = configure_surface(&vec![TextureFormat::Rgba8Unorm], 800, 600).unwrap();
    let before = config;
    assert!(config.resize(1024, 768));
    assert_eq!(config, SurfaceConfiguration { width: 1024, height: 768, ..before });
}

#[test]
fn resize_ignores_an_empty_size() {
    let mut config = configure_surface(&vec![TextureFormat::Rgba8Unorm], 800, 600).unwrap();
    let before = config;
    assert!(!config.resize(0, 768));
    assert_eq!(config, before);
    assert!(!config.resize(1024, 0));
    assert_eq!(config, before);
    assert!(!config.resize(0, 0));
    assert_eq!(config, before);
    assert!(config.resize(1, 1));
    assert_eq!(config, SurfaceConfiguration { width: 1, height: 1, ..before });
}

#[test]
fn recovery_by_error() {
    assert_eq!(recover(SurfaceError::Lost), Recovery::Reconfigure);
    assert_eq!(recover(SurfaceError::Outdated), Recovery::Reconfigure);
    assert_eq!(recover(SurfaceError::OutOfMemory), Recovery::Exit);
    assert_eq!(recover(SurfaceError::Timeout), Recovery::Report);
}
