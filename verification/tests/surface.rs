use render_core::surface::{
    choose_surface_format, initial_configuration, preferred_format_index, ConfigError,
    SurfaceCapabilities, SurfaceConfig, SurfaceError, MAX_FRAMES_IN_FLIGHT,
};
use wgpu::{CompositeAlphaMode, PresentMode, TextureFormat};

fn capabilities() -> SurfaceCapabilities {
    SurfaceCapabilities {
        formats: vec![TextureFormat::Bgra8Unorm, TextureFormat::Bgra8UnormSrgb, TextureFormat::Rgba8UnormSrgb],
        present_modes: vec![PresentMode::Fifo, PresentMode::Mailbox],
        alpha_modes: vec![CompositeAlphaMode::Opaque, CompositeAlphaMode::PreMultiplied],
    }
}

#[test]
fn preferred_index_is_the_first_srgb_entry() {
    assert_eq!(preferred_format_index(&vec![false, true, true]), Some(1));
    assert_eq!(preferred_format_index(&vec![true, false]), Some(0));
    assert_eq!(preferred_format_index(&vec![false, false, false, true]), Some(3));
}

#[test]
fn preferred_index_falls_back_to_the_first_entry() {
    assert_eq!(preferred_format_index(&vec![false, false]), Some(0));
    assert_eq!(preferred_format_index(&vec![false]), Some(0));
}

#[test]
fn preferred_index_of_nothing_is_none() {
    assert_eq!(preferred_format_index(&Vec::new()), None);
}

#[test]
fn first_srgb_format_is_chosen() {
    let formats = vec![
        TextureFormat::Bgra8Unorm,
        TextureFormat::Rgba16Float,
        TextureFormat::Rgba8UnormSrgb,
        TextureFormat::Bgra8UnormSrgb,
    ];
    assert_eq!(choose_surface_format(&formats), Some(TextureFormat::Rgba8UnormSrgb));
}

#[test]
fn first_format_is_chosen_when_none_is_srgb() {
    let formats = vec![TextureFormat::Rgba16Float, TextureFormat::Bgra8Unorm];
    assert_eq!(choose_surface_format(&formats), Some(TextureFormat::Rgba16Float));
}

#[test]
fn no_format_is_chosen_from_none() {
    assert_eq!(choose_surface_format(&Vec::new()), None);
}

#[test]
fn chosen_format_is_srgb_exactly_if_one_is_offered() {
    let with = vec![TextureFormat::Rgb10a2Unorm, TextureFormat::Bgra8UnormSrgb];
    let without = vec![TextureFormat::Rgb10a2Unorm, TextureFormat::Bgra8Unorm];
    assert!(choose_surface_format(&with).unwrap().is_srgb());
    assert!(!choose_surface_format(&without).unwrap().is_srgb());
}

#[test]
fn initial_configuration_takes_size_and_first_modes() {
    let config = initial_configuration((800, 600), &capabilities()).unwrap();
    assert_eq!(
        config,
        SurfaceConfig {
            format: TextureFormat::Bgra8UnormSrgb,
            width: 800,
            height: 600,
            present_mode: PresentMode::Fifo,
            alpha_mode: CompositeAlphaMode::Opaque,
            desired_maximum_frame_latency: 2,
        }
    );
    assert_eq!(MAX_FRAMES_IN_FLIGHT, 2);
}

#[test]
fn initial_configuration_takes_the_largest_size() {
    let config = initial_configuration((i32::MAX, 1), &capabilities()).unwrap();
    assert_eq!(config.width, 2147483647);
    assert_eq!(config.height, 1);
}

#[test]
fn empty_framebuffer_has_no_configuration() {
    for size in [(0, 600), (800, 0), (0, 0), (-1, 600), (800, -600), (i32::MIN, i32::MIN)] {
        assert_eq!(initial_configuration(size, &capabilities()), Err(ConfigError::ZeroArea));
    }
}

#[test]
fn surface_without_formats_has_no_configuration() {
    let mut caps = capabilities();
    caps.formats.clear();
    assert_eq!(initial_configuration((800, 600), &caps), Err(ConfigError::NoSurfaceFormat));
}

#[test]
fn surface_without_present_modes_has_no_configuration() {
    let mut caps = capabilities();
    caps.present_modes.clear();
    assert_eq!(initial_configuration((800, 600), &caps), Err(ConfigError::NoPresentMode));
}

#[test]
fn surface_without_alpha_modes_has_no_configuration() {
    let mut caps = capabilities();
    caps.alpha_modes.clear();
    assert_eq!(initial_configuration((800, 600), &caps), Err(ConfigError::NoAlphaMode));
}

#[test]
fn configuration_errors_are_reported_in_order() {
    let nothing = SurfaceCapabilities { formats: vec![], present_modes: vec![], alpha_modes: vec![] };
    assert_eq!(initial_configuration((0, 0), &nothing), Err(ConfigError::ZeroArea));
    assert_eq!(initial_configuration((1, 1), &nothing), Err(ConfigError::NoSurfaceFormat));
    let formats_only = SurfaceCapabilities {
        formats: vec![TextureFormat::Bgra8Unorm],
        present_modes: vec![],
        alpha_modes: vec![],
    };
    assert_eq!(initial_configuration((1, 1), &formats_only), Err(ConfigError::NoPresentMode));
}

#[test]
fn only_lost_and_outdated_need_a_reconfiguration() {
    assert!(SurfaceError::Lost.needs_reconfigure());
    assert!(SurfaceError::Outdated.needs_reconfigure());
    assert!(!SurfaceError::Timeout.needs_reconfigure());
    assert!(!SurfaceError::OutOfMemory.needs_reconfigure());
    assert!(!SurfaceError::Other.needs_reconfigure());
}
