use render_core::renderer_backend::bind_group_layout::{
    BindGroupLayout, BindGroupLayoutEntry, BindingType, Builder, ShaderStage,
};
use render_core::renderer_backend::material::{
    bind_group_conforms, AddressMode, BindGroupEntry, FilterMode, ImageData, Material,
    MaterialError, SamplerDescriptor, TextureUpload, BYTES_PER_PIXEL,
};

fn material_layout() -> BindGroupLayout {
    let mut builder = Builder::new();
    builder.add_material();
    builder.build("Material Bind Group Layout")
}

fn image(width: u32, height: u32) -> ImageData {
    let pixels = (0..(4 * width * height)).map(|i| (i % 251) as u8).collect();
    ImageData { width, height, pixels }
}

#[test]
fn material_takes_the_image_and_fills_the_layout() {
    let layout = material_layout();
    let source = image(3, 2);
    let pixels = source.pixels.clone();
    let material = Material::new(source, &layout).unwrap();
    assert_eq!(material.pixels, pixels);
    assert_eq!(
        material.upload,
        TextureUpload { width: 3, height: 2, bytes_per_row: 12, rows_per_image: 2 }
    );
    assert_eq!(
        material.bind_group,
        vec![
            BindGroupEntry { binding: 0, resource: BindingType::Texture },
            BindGroupEntry { binding: 1, resource: BindingType::Sampler },
        ]
    );
}

#[test]
fn material_bind_group_matches_the_layout_slot_by_slot() {
    let layout = material_layout();
    let material = Material::new(image(4, 4), &layout).unwrap();
    assert_eq!(material.bind_group.len(), layout.entries.len());
    for (resource, slot) in material.bind_group.iter().zip(layout.entries.iter()) {
        assert_eq!(resource.binding, slot.binding);
        assert_eq!(resource.resource, slot.ty);
    }
    assert!(bind_group_conforms(&material.bind_group, &layout));
}

#[test]
fn material_sampler_is_linear_and_clamped() {
    let material = Material::new(image(1, 1), &material_layout()).unwrap();
    assert_eq!(
        material.sampler,
        SamplerDescriptor {
            address_mode_u: AddressMode::ClampToEdge,
            address_mode_v: AddressMode::ClampToEdge,
            address_mode_w: AddressMode::ClampToEdge,
            mag_filter: FilterMode::Linear,
            min_filter: FilterMode::Linear,
            mipmap_filter: FilterMode::Nearest,
        }
    );
}

#[test]
fn two_materials_share_nothing_but_the_layout() {
    let layout = material_layout();
    let a = Material::new(image(2, 2), &layout).unwrap();
    let b = Material::new(image(1, 5), &layout).unwrap();
    assert_eq!(a.upload.bytes_per_row, 8);
    assert_eq!(b.upload.bytes_per_row, 4);
    assert_eq!(a.pixels.len(), 16);
    assert_eq!(b.pixels.len(), 20);
    assert_eq!(a.bind_group, b.bind_group);
}

#[test]
fn image_without_pixels_is_rejected() {
    let layout = material_layout();
    assert_eq!(Material::new(image(0, 4), &layout), Err(MaterialError::EmptyImage));
    assert_eq!(Material::new(image(4, 0), &layout), Err(MaterialError::EmptyImage));
    assert_eq!(Material::new(image(0, 0), &layout), Err(MaterialError::EmptyImage));
}

#[test]
fn image_with_too_long_rows_is_rejected() {
    let layout = material_layout();
    let wide = ImageData { width: u32::MAX / 4 + 1, height: 1, pixels: Vec::new() };
    assert_eq!(Material::new(wide, &layout), Err(MaterialError::ImageTooLarge));
    let widest_allowed = ImageData { width: u32::MAX / 4, height: 1, pixels: Vec::new() };
    assert_eq!(Material::new(widest_allowed, &layout), Err(MaterialError::PixelCountMismatch));
}

#[test]
fn image_with_wrong_pixel_count_is_rejected() {
    let layout = material_layout();
    let short = ImageData { width: 2, height: 2, pixels: vec![0; 15] };
    let long = ImageData { width: 2, height: 2, pixels: vec![0; 17] };
    assert_eq!(Material::new(short, &layout), Err(MaterialError::PixelCountMismatch));
    assert_eq!(Material::new(long, &layout), Err(MaterialError::PixelCountMismatch));
    assert_eq!(BYTES_PER_PIXEL, 4);
}

#[test]
fn layout_of_other_slots_is_rejected() {
    let empty = Builder::new().build("Empty");
    assert_eq!(Material::new(image(1, 1), &empty), Err(MaterialError::LayoutMismatch));

    let mut two = Builder::new();
    two.add_material();
    two.add_material();
    let two = two.build("Two Materials");
    assert_eq!(Material::new(image(1, 1), &two), Err(MaterialError::LayoutMismatch));

    let swapped = BindGroupLayout {
        label: String::from("Swapped"),
        entries: vec![
            BindGroupLayoutEntry {
                binding: 0,
                visibility: ShaderStage::Fragment,
                ty: BindingType::Sampler,
            },
            BindGroupLayoutEntry {
                binding: 1,
                visibility: ShaderStage::Fragment,
                ty: BindingType::Texture,
            },
        ],
    };
    assert_eq!(Material::new(image(1, 1), &swapped), Err(MaterialError::LayoutMismatch));

    let renumbered = BindGroupLayout {
        label: String::from("Renumbered"),
        entries: vec![
            BindGroupLayoutEntry {
                binding: 1,
                visibility: ShaderStage::Fragment,
                ty: BindingType::Texture,
            },
            BindGroupLayoutEntry {
                binding: 2,
                visibility: ShaderStage::Fragment,
                ty: BindingType::Sampler,
            },
        ],
    };
    assert_eq!(Material::new(image(1, 1), &renumbered), Err(MaterialError::LayoutMismatch));
}

#[test]
fn layout_visible_to_another_stage_is_still_filled() {
    let layout = BindGroupLayout {
        label: String::from("Vertex Stage"),
        entries: vec![
            BindGroupLayoutEntry {
                binding: 0,
                visibility: ShaderStage::Vertex,
                ty: BindingType::Texture,
            },
            BindGroupLayoutEntry {
                binding: 1,
                visibility: ShaderStage::Vertex,
                ty: BindingType::Sampler,
            },
        ],
    };
    assert!(Material::new(image(1, 1), &layout).is_ok());
}

#[test]
fn material_errors_are_reported_in_order() {
    let empty = Builder::new().build("Empty");
    let no_pixels = ImageData { width: 0, height: 0, pixels: vec![1, 2, 3] };
    assert_eq!(Material::new(no_pixels, &empty), Err(MaterialError::EmptyImage));
    let wrong_count = ImageData { width: 1, height: 1, pixels: vec![1, 2, 3] };
    assert_eq!(Material::new(wrong_count, &empty), Err(MaterialError::PixelCountMismatch));
}

#[test]
fn conformance_compares_count_number_and_kind() {
    let layout = material_layout();
    let texture = BindGroupEntry { binding: 0, resource: BindingType::Texture };
    let sampler = BindGroupEntry { binding: 1, resource: BindingType::Sampler };
    assert!(bind_group_conforms(&vec![texture, sampler], &layout));
    assert!(!bind_group_conforms(&vec![texture], &layout));
    assert!(!bind_group_conforms(&vec![sampler, texture], &layout));
    assert!(!bind_group_conforms(&vec![texture, sampler, texture], &layout));
    assert!(!bind_group_conforms(
        &vec![texture, BindGroupEntry { binding: 1, resource: BindingType::Texture }],
        &layout
    ));
    assert!(!bind_group_conforms(
        &vec![texture, BindGroupEntry { binding: 2, resource: BindingType::Sampler }],
        &layout
    ));
    assert!(bind_group_conforms(&Vec::new(), &Builder::new().build("Empty")));
}
