//! Materials: a texture, the sampler it is read through, and the bind group
//! that hands both to the fragment stage.

use crate::renderer_backend::bind_group_layout::material_entries;
use crate::renderer_backend::bind_group_layout::BindGroupLayout;
use crate::renderer_backend::bind_group_layout::BindGroupLayoutEntry;
use crate::renderer_backend::bind_group_layout::BindingType;
use vstd::prelude::*;

verus! {

/// Bytes of one decoded pixel: red, green, blue, alpha.
pub const BYTES_PER_PIXEL: u32 = 4;

/// A decoded image: `height` rows of `width` pixels, four bytes each, top row
/// first.
#[derive(Debug, PartialEq, Eq)]
pub struct ImageData {
    pub width: u32,
    pub height: u32,
    pub pixels: Vec<u8>,
}

/// How a texture coordinate outside the image is brought back into it.
#[derive(Clone, Copy, Debug, PartialEq, Eq, Structural)]
pub enum AddressMode {
    ClampToEdge,
    Repeat,
    MirrorRepeat,
}

/// How a sample between pixels is taken.
#[derive(Clone, Copy, Debug, PartialEq, Eq, Structural)]
pub enum FilterMode {
    Nearest,
    Linear,
}

/// The settings of a sampler.
#[derive(Clone, Copy, Debug, PartialEq, Eq, Structural)]
pub struct SamplerDescriptor {
    pub address_mode_u: AddressMode,
    pub address_mode_v: AddressMode,
    pub address_mode_w: AddressMode,
    pub mag_filter: FilterMode,
    pub min_filter: FilterMode,
    pub mipmap_filter: FilterMode,
}

/// The extent of a two-dimensional texture and the layout of the pixel data
/// copied into it.
#[derive(Clone, Copy, Debug, PartialEq, Eq, Structural)]
pub struct TextureUpload {
    pub width: u32,
    pub height: u32,
    pub bytes_per_row: u32,
    pub rows_per_image: u32,
}

/// One resource of a bind group and the slot it is bound at.
#[derive(Clone, Copy, Debug, PartialEq, Eq, Structural)]
pub struct BindGroupEntry {
    pub binding: u32,
    pub resource: BindingType,
}

/// Why a material cannot be made. Of several reasons, the one named first
/// here is reported.
#[derive(Clone, Copy, Debug, PartialEq, Eq, Structural)]
pub enum MaterialError {
    /// The image has no pixels.
    EmptyImage,
    /// A row of the image is longer than a copy can describe.
    ImageTooLarge,
    /// The pixel data is not `width * height` pixels long.
    PixelCountMismatch,
    /// The layout's slots are not the ones a material fills.
    LayoutMismatch,
}

/// A textured material, ready for upload.
#[derive(Debug, PartialEq, Eq)]
pub struct Material {
    pub pixels: Vec<u8>,
    pub upload: TextureUpload,
    pub sampler: SamplerDescriptor,
    pub bind_group: Vec<BindGroupEntry>,
}

/// The sampler of every material: linear filtering, clamped at the edges.
pub open spec fn material_sampler() -> SamplerDescriptor {
    SamplerDescriptor {
        address_mode_u: AddressMode::ClampToEdge,
        address_mode_v: AddressMode::ClampToEdge,
        address_mode_w: AddressMode::ClampToEdge,
        mag_filter: FilterMode::Linear,
        min_filter: FilterMode::Linear,
        mipmap_filter: FilterMode::Nearest,
    }
}

/// The resources of a material's bind group: the texture view at slot 0, the
/// sampler at slot 1.
pub open spec fn material_bind_group() -> Seq<BindGroupEntry> {
    seq![
        BindGroupEntry { binding: 0, resource: BindingType::Texture },
        BindGroupEntry { binding: 1, resource: BindingType::Sampler },
    ]
}

/// A bind group fills a layout: it has one resource per slot, in the slots'
/// order, each at its slot's number and of its slot's kind.
pub open spec fn conforms(group: Seq<BindGroupEntry>, layout: Seq<BindGroupLayoutEntry>) -> bool {
    &&& group.len() == layout.len()
    &&& forall|i: int|
        0 <= i < group.len() ==> (#[trigger] group[i]).binding == layout[i].binding && group[i].resource
            == layout[i].ty
}

/// The texture extent and copy layout of an image of the given size.
pub open spec fn upload_of(width: u32, height: u32) -> TextureUpload {
    TextureUpload {
        width,
        height,
        bytes_per_row: (BYTES_PER_PIXEL * width) as u32,
        rows_per_image: height,
    }
}

/// `material` is the material of `image`: a texture of the image's size
/// holding its pixels row after row, the material sampler, and the material
/// bind group.
pub open spec fn is_material_of(material: Material, image: ImageData) -> bool {
    &&& material.pixels == image.pixels
    &&& material.upload == upload_of(image.width, image.height)
    &&& material.sampler == material_sampler()
    &&& material.bind_group@ == material_bind_group()
}

/// The error, if any, that stands in the way of a material from `image`
/// against the slots `layout`.
pub open spec fn material_error(image: ImageData, layout: Seq<BindGroupLayoutEntry>) -> Option<
    MaterialError,
> {
    if image.width == 0 || image.height == 0 {
        Some(MaterialError::EmptyImage)
    } else if BYTES_PER_PIXEL * image.width > u32::MAX {
        Some(MaterialError::ImageTooLarge)
    } else if image.pixels@.len() != BYTES_PER_PIXEL * image.width * image.height {
        Some(MaterialError::PixelCountMismatch)
    } else if !conforms(material_bind_group(), layout) {
        Some(MaterialError::LayoutMismatch)
    } else {
        None
    }
}

/// The bind group of a material fills the layout that one material's slots
/// make, whatever stages the slots are visible to.
pub proof fn lemma_material_fills_its_layout()
    ensures
        conforms(material_bind_group(), material_entries(0)),
{
}

/// Whether a bind group fills a layout.
pub fn bind_group_conforms(group: &Vec<BindGroupEntry>, layout: &BindGroupLayout) -> (ok: bool)
    ensures
        ok == conforms(group@, layout.entries@),
{
    if group.len() != layout.entries.len() {
        return false;
    }
    let mut i: usize = 0;
    while i < group.len()
        invariant
            i <= group@.len(),
            group@.len() == layout.entries@.len(),
            forall|j: int|
                0 <= j < i ==> (#[trigger] group@[j]).binding == layout.entries@[j].binding
                    && group@[j].resource == layout.entries@[j].ty,
        decreases group@.len() - i,
    {
        let slot = layout.entries[i];
        if group[i].binding != slot.binding || group[i].resource != slot.ty {
            return false;
        }
        i = i + 1;
    }
    true
}

impl Material {
    /// Makes the material of a decoded image against a bind group layout:
    /// a texture of the image's size holding its pixels, the material
    /// sampler, and a bind group that fills the layout.
    pub fn new(image: ImageData, layout: &BindGroupLayout) -> (result: Result<
        Material,
        MaterialError,
    >)
        ensures
            match result {
                Ok(material) => {
                    &&& material_error(image, layout.entries@).is_none()
                    &&& is_material_of(material, image)
                    &&& conforms(material.bind_group@, layout.entries@)
                },
                Err(error) => material_error(image, layout.entries@) == Some(error),
            },
    {
        if image.width == 0 || image.height == 0 {
            return Err(MaterialError::EmptyImage);
        }
        if image.width > u32::MAX / BYTES_PER_PIXEL {
            return Err(MaterialError::ImageTooLarge);
        }
        let bytes_per_row: u32 = BYTES_PER_PIXEL * image.width;
        assert(bytes_per_row as u64 * image.height as u64 <= u64::MAX) by (nonlinear_arith)
            requires
                bytes_per_row <= u32::MAX,
                image.height <= u32::MAX,
        ;
        assert(BYTES_PER_PIXEL * image.width * image.height == bytes_per_row as u64
            * image.height as u64);
        let byte_count: u64 = bytes_per_row as u64 * image.height as u64;
        if image.pixels.len() as u64 != byte_count {
            return Err(MaterialError::PixelCountMismatch);
        }
        let mut bind_group: Vec<BindGroupEntry> = Vec::new();
        bind_group.push(BindGroupEntry { binding: 0, resource: BindingType::Texture });
        bind_group.push(BindGroupEntry { binding: 1, resource: BindingType::Sampler });
        assert(bind_group@ =~= material_bind_group());
        if !bind_group_conforms(&bind_group, layout) {
            return Err(MaterialError::LayoutMismatch);
        }
        Ok(
            Material {
                pixels: image.pixels,
                upload: TextureUpload {
                    width: image.width,
                    height: image.height,
                    bytes_per_row,
                    rows_per_image: image.height,
                },
                sampler: SamplerDescriptor {
                    address_mode_u: AddressMode::ClampToEdge,
                    address_mode_v: AddressMode::ClampToEdge,
                    address_mode_w: AddressMode::ClampToEdge,
                    mag_filter: FilterMode::Linear,
                    min_filter: FilterMode::Linear,
                    mipmap_filter: FilterMode::Nearest,
                },
                bind_group,
            },
        )
    }
}

} // verus!
