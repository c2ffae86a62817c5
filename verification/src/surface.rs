//! Surface negotiation: which colour format a surface presents in, and the
//! configuration it is given.
//!
//! Colour formats, presentation modes and alpha modes are values of `wgpu`.
//! The library never looks inside one: it carries them from the capabilities
//! a surface reports into the configuration it is given, and asks `wgpu`
//! which formats are sRGB.

use vstd::prelude::*;

verus! {

/// Declares `wgpu::TextureFormat`, the format of a texture's texels. It is
/// opaque here: nothing is assumed of its variants.
#[verifier::external_type_specification]
#[verifier::external_body]
pub struct ExTextureFormat(wgpu::TextureFormat);

/// Declares `wgpu::PresentMode`, the way a surface hands frames to the
/// display. It is opaque here: nothing is assumed of its variants.
#[verifier::external_type_specification]
#[verifier::external_body]
pub struct ExPresentMode(wgpu::PresentMode);

/// Declares `wgpu::CompositeAlphaMode`, the way a surface's alpha channel is
/// composited. It is opaque here: nothing is assumed of its variants.
#[verifier::external_type_specification]
#[verifier::external_body]
pub struct ExCompositeAlphaMode(wgpu::CompositeAlphaMode);

/// What `wgpu::TextureFormat::is_srgb` answers for a format: whether the
/// format is one of the sRGB formats. Nothing is assumed of its value on any
/// format.
pub uninterp spec fn is_srgb_format(format: wgpu::TextureFormat) -> bool;

/// Calls `wgpu::TextureFormat::is_srgb`.
///
/// Not proved, but assumed of `wgpu`: the answer is a function of the format
/// alone, the one that `is_srgb_format` names.
#[verifier::external_body]
fn format_is_srgb(format: &wgpu::TextureFormat) -> (srgb: bool)
    ensures
        srgb == is_srgb_format(*format),
{
    format.is_srgb()
}

/// Number of frames the presentation engine may queue in advance.
pub const MAX_FRAMES_IN_FLIGHT: u32 = 2;

/// Why acquiring the next frame of a surface failed.
#[derive(Clone, Copy, Debug, PartialEq, Eq, Structural)]
pub enum SurfaceError {
    Timeout,
    Outdated,
    Lost,
    OutOfMemory,
    Other,
}

impl SurfaceError {
    /// The errors that reconfiguring the surface cures.
    pub open spec fn spec_needs_reconfigure(self) -> bool {
        self == SurfaceError::Lost || self == SurfaceError::Outdated
    }

    #[verifier::when_used_as_spec(spec_needs_reconfigure)]
    pub fn needs_reconfigure(self) -> (needed: bool)
        ensures
            needed == self.spec_needs_reconfigure(),
    {
        match self {
            SurfaceError::Lost | SurfaceError::Outdated => true,
            _ => false,
        }
    }
}

/// What a surface supports with a given adapter, each list in the adapter's
/// order of preference.
#[derive(Debug, PartialEq, Eq)]
pub struct SurfaceCapabilities {
    pub formats: Vec<wgpu::TextureFormat>,
    pub present_modes: Vec<wgpu::PresentMode>,
    pub alpha_modes: Vec<wgpu::CompositeAlphaMode>,
}

/// The parameters a surface is configured with.
#[derive(Clone, Copy, Debug, PartialEq, Eq)]
pub struct SurfaceConfig {
    pub format: wgpu::TextureFormat,
    pub width: u32,
    pub height: u32,
    pub present_mode: wgpu::PresentMode,
    pub alpha_mode: wgpu::CompositeAlphaMode,
    pub desired_maximum_frame_latency: u32,
}

/// Why no configuration can be made.
#[derive(Clone, Copy, Debug, PartialEq, Eq, Structural)]
pub enum ConfigError {
    /// A dimension of the framebuffer is zero or negative.
    ZeroArea,
    /// The surface reports no colour format.
    NoSurfaceFormat,
    /// The surface reports no presentation mode.
    NoPresentMode,
    /// The surface reports no alpha mode.
    NoAlphaMode,
}

/// A framebuffer size that a surface can be configured to.
pub open spec fn is_valid_size(size: (i32, i32)) -> bool {
    size.0 > 0 && size.1 > 0
}

/// `k` is the position of the preferred entry of a list, given which entries
/// are sRGB: the first sRGB entry, or the first entry if none is sRGB.
pub open spec fn is_preferred(srgb: Seq<bool>, k: int) -> bool {
    &&& 0 <= k < srgb.len()
    &&& forall|j: int| 0 <= j < k ==> !srgb[j]
    &&& srgb[k] || (k == 0 && forall|j: int| 0 <= j < srgb.len() ==> !srgb[j])
}

/// For each format of a list, whether it is sRGB.
pub open spec fn srgb_flags(formats: Seq<wgpu::TextureFormat>) -> Seq<bool> {
    formats.map_values(|f: wgpu::TextureFormat| is_srgb_format(f))
}

/// `format` is the preferred entry of `formats`.
pub open spec fn is_preferred_format(
    formats: Seq<wgpu::TextureFormat>,
    format: wgpu::TextureFormat,
) -> bool {
    exists|k: int| is_preferred(srgb_flags(formats), k) && formats[k] == format
}

/// At most one position is the preferred one.
pub proof fn lemma_preferred_unique(srgb: Seq<bool>, a: int, b: int)
    requires
        is_preferred(srgb, a),
        is_preferred(srgb, b),
    ensures
        a == b,
{
    if a < b {
        assert(!srgb[a]);
    } else if b < a {
        assert(!srgb[b]);
    }
}

/// Position of the preferred entry, given which entries are sRGB; `None` for
/// an empty list.
pub fn preferred_format_index(srgb: &Vec<bool>) -> (index: Option<usize>)
    ensures
        index.is_none() <==> srgb@.len() == 0,
        index matches Some(k) ==> is_preferred(srgb@, k as int),
{
    if srgb.len() == 0 {
        return None;
    }
    let mut i: usize = 0;
    while i < srgb.len()
        invariant
            i <= srgb@.len(),
            forall|j: int| 0 <= j < i ==> !srgb@[j],
        decreases srgb@.len() - i,
    {
        if srgb[i] {
            return Some(i);
        }
        i = i + 1;
    }
    Some(0)
}

/// The format to present in: the first sRGB format the surface reports, or
/// its first format if it reports no sRGB one. `None` if it reports none.
pub fn choose_surface_format(formats: &Vec<wgpu::TextureFormat>) -> (chosen: Option<
    wgpu::TextureFormat,
>)
    ensures
        chosen.is_none() <==> formats@.len() == 0,
        chosen matches Some(format) ==> is_preferred_format(formats@, format),
{
    let mut srgb: Vec<bool> = Vec::new();
    let mut i: usize = 0;
    while i < formats.len()
        invariant
            i <= formats@.len(),
            srgb@ == srgb_flags(formats@).take(i as int),
        decreases formats@.len() - i,
    {
        srgb.push(format_is_srgb(&formats[i]));
        assert(srgb@ =~= srgb_flags(formats@).take(i + 1));
        i = i + 1;
    }
    assert(srgb@ =~= srgb_flags(formats@));
    match preferred_format_index(&srgb) {
        Some(k) => Some(formats[k]),
        None => None,
    }
}

/// The error, if any, that stands in the way of a first configuration. Of
/// several, the one named first in `ConfigError` is reported.
pub open spec fn configuration_error(size: (i32, i32), capabilities: SurfaceCapabilities) -> Option<
    ConfigError,
> {
    if !is_valid_size(size) {
        Some(ConfigError::ZeroArea)
    } else if capabilities.formats@.len() == 0 {
        Some(ConfigError::NoSurfaceFormat)
    } else if capabilities.present_modes@.len() == 0 {
        Some(ConfigError::NoPresentMode)
    } else if capabilities.alpha_modes@.len() == 0 {
        Some(ConfigError::NoAlphaMode)
    } else {
        None
    }
}

/// `config` is the first configuration of a surface of the given framebuffer
/// size and capabilities.
pub open spec fn is_initial_configuration(
    config: SurfaceConfig,
    size: (i32, i32),
    capabilities: SurfaceCapabilities,
) -> bool {
    &&& config.width == size.0
    &&& config.height == size.1
    &&& is_preferred_format(capabilities.formats@, config.format)
    &&& config.present_mode == capabilities.present_modes@[0]
    &&& config.alpha_mode == capabilities.alpha_modes@[0]
    &&& config.desired_maximum_frame_latency == MAX_FRAMES_IN_FLIGHT
}

/// The first configuration of a surface: the framebuffer's size, the
/// preferred format, and the first presentation and alpha mode reported.
pub fn initial_configuration(size: (i32, i32), capabilities: &SurfaceCapabilities) -> (result:
    Result<SurfaceConfig, ConfigError>)
    ensures
        match result {
            Ok(config) => configuration_error(size, *capabilities).is_none()
                && is_initial_configuration(config, size, *capabilities),
            Err(error) => configuration_error(size, *capabilities) == Some(error),
        },
{
    if size.0 <= 0 || size.1 <= 0 {
        return Err(ConfigError::ZeroArea);
    }
    let format = match choose_surface_format(&capabilities.formats) {
        Some(format) => format,
        None => {
            return Err(ConfigError::NoSurfaceFormat);
        },
    };
    if capabilities.present_modes.len() == 0 {
        return Err(ConfigError::NoPresentMode);
    }
    if capabilities.alpha_modes.len() == 0 {
        return Err(ConfigError::NoAlphaMode);
    }
    Ok(
        SurfaceConfig {
            format,
            width: size.0 as u32,
            height: size.1 as u32,
            present_mode: capabilities.present_modes[0],
            alpha_mode: capabilities.alpha_modes[0],
            desired_maximum_frame_latency: MAX_FRAMES_IN_FLIGHT,
        },
    )
}

} // verus!
