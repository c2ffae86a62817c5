use render_core::renderer_backend::bind_group_layout::{BindGroupLayout, Builder as LayoutBuilder};
use render_core::renderer_backend::mesh_builder::{
    Vertex, VertexAttribute, VertexBufferLayout, VertexFormat, VertexStepMode,
};
use render_core::renderer_backend::pipeline::{
    BlendMode, Builder, PipelineError, PrimitiveTopology,
};
use wgpu::TextureFormat;

fn material_layout(label: &str) -> BindGroupLayout {
    let mut builder = LayoutBuilder::new();
    builder.add_material();
    builder.build(label)
}

#[test]
fn new_pipeline_builder_holds_nothing() {
    let builder = Builder::new();
    assert!(builder.shader.is_none());
    assert!(builder.pixel_format.is_none());
    assert!(builder.vertex_buffer_layouts.is_empty());
    assert!(builder.bind_group_layouts.is_empty());
}

#[test]
fn pipeline_is_built_from_what_was_set() {
    let mut builder = Builder::new();
    builder.set_shader_module("shaders/shader.wgsl", "vs_main", "fs_main");
    builder.set_pixel_format(TextureFormat::Bgra8UnormSrgb);
    builder.add_vertex_buffer_layout(Vertex::get_layout());
    builder.add_bind_group_layout(material_layout("Material"));
    let pipeline = builder.build_pipeline("Render Pipeline").unwrap();
    assert_eq!(pipeline.label, "Render Pipeline");
    assert_eq!(pipeline.shader.path, "shaders/shader.wgsl");
    assert_eq!(pipeline.shader.vertex_entry, "vs_main");
    assert_eq!(pipeline.shader.fragment_entry, "fs_main");
    assert_eq!(pipeline.target_format, TextureFormat::Bgra8UnormSrgb);
    assert_eq!(pipeline.vertex_buffers, vec![Vertex::get_layout()]);
    assert_eq!(pipeline.bind_group_layouts, vec![material_layout("Material")]);
    assert_eq!(pipeline.topology, PrimitiveTopology::TriangleList);
    assert!(!pipeline.depth_stencil);
    assert_eq!(pipeline.blend, BlendMode::Replace);
}

#[test]
fn setters_may_come_in_any_order() {
    let mut first = Builder::new();
    first.add_bind_group_layout(material_layout("Material"));
    first.add_vertex_buffer_layout(Vertex::get_layout());
    first.set_pixel_format(TextureFormat::Rgba8Unorm);
    first.set_shader_module("a.wgsl", "v", "f");

    let mut second = Builder::new();
    second.set_shader_module("a.wgsl", "v", "f");
    second.set_pixel_format(TextureFormat::Rgba8Unorm);
    second.add_vertex_buffer_layout(Vertex::get_layout());
    second.add_bind_group_layout(material_layout("Material"));

    assert_eq!(first.build_pipeline("P"), second.build_pipeline("P"));
}

#[test]
fn later_setting_replaces_earlier() {
    let mut builder = Builder::new();
    builder.set_shader_module("old.wgsl", "a", "b");
    builder.set_shader_module("new.wgsl", "c", "d");
    builder.set_pixel_format(TextureFormat::Rgba8Unorm);
    builder.set_pixel_format(TextureFormat::Bgra8Unorm);
    builder.add_vertex_buffer_layout(Vertex::get_layout());
    builder.add_bind_group_layout(material_layout("Material"));
    let pipeline = builder.build_pipeline("P").unwrap();
    assert_eq!(pipeline.shader.path, "new.wgsl");
    assert_eq!(pipeline.shader.vertex_entry, "c");
    assert_eq!(pipeline.shader.fragment_entry, "d");
    assert_eq!(pipeline.target_format, TextureFormat::Bgra8Unorm);
}

#[test]
fn layouts_keep_the_order_they_were_added_in() {
    let instance_layout = VertexBufferLayout {
        array_stride: 16,
        step_mode: VertexStepMode::Instance,
        attributes: vec![VertexAttribute {
            format: VertexFormat::Float32x4,
            offset: 0,
            shader_location: 2,
        }],
    };
    let mut builder = Builder::new();
    builder.set_shader_module("a.wgsl", "v", "f");
    builder.set_pixel_format(TextureFormat::Rgba8Unorm);
    builder.add_vertex_buffer_layout(Vertex::get_layout());
    builder.add_vertex_buffer_layout(instance_layout);
    builder.add_bind_group_layout(material_layout("Group 0"));
    builder.add_bind_group_layout(material_layout("Group 1"));
    let pipeline = builder.build_pipeline("P").unwrap();
    assert_eq!(pipeline.vertex_buffers.len(), 2);
    assert_eq!(pipeline.vertex_buffers[0].array_stride, 24);
    assert_eq!(pipeline.vertex_buffers[1].array_stride, 16);
    assert_eq!(pipeline.bind_group_layouts[0].label, "Group 0");
    assert_eq!(pipeline.bind_group_layouts[1].label, "Group 1");
}

#[test]
fn pipeline_without_shader_is_refused() {
    let mut builder = Builder::new();
    builder.set_pixel_format(TextureFormat::Rgba8Unorm);
    builder.add_vertex_buffer_layout(Vertex::get_layout());
    builder.add_bind_group_layout(material_layout("Material"));
    assert_eq!(builder.build_pipeline("P"), Err(PipelineError::MissingShader));
}

#[test]
fn pipeline_without_target_format_is_refused() {
    let mut builder = Builder::new();
    builder.set_shader_module("a.wgsl", "v", "f");
    builder.add_vertex_buffer_layout(Vertex::get_layout());
    builder.add_bind_group_layout(material_layout("Material"));
    assert_eq!(builder.build_pipeline("P"), Err(PipelineError::MissingTargetFormat));
}

#[test]
fn pipeline_without_vertex_buffer_layout_is_refused() {
    let mut builder = Builder::new();
    builder.set_shader_module("a.wgsl", "v", "f");
    builder.set_pixel_format(TextureFormat::Rgba8Unorm);
    builder.add_bind_group_layout(material_layout("Material"));
    assert_eq!(builder.build_pipeline("P"), Err(PipelineError::NoVertexBufferLayout));
}

#[test]
fn pipeline_without_bind_group_layout_is_refused() {
    let mut builder = Builder::new();
    builder.set_shader_module("a.wgsl", "v", "f");
    builder.set_pixel_format(TextureFormat::Rgba8Unorm);
    builder.add_vertex_buffer_layout(Vertex::get_layout());
    assert_eq!(builder.build_pipeline("P"), Err(PipelineError::NoBindGroupLayout));
}

#[test]
fn pipeline_errors_are_reported_in_order() {
    assert_eq!(Builder::new().build_pipeline("P"), Err(PipelineError::MissingShader));
    let mut builder = Builder::new();
    builder.set_shader_module("a.wgsl", "v", "f");
    assert_eq!(builder.build_pipeline("P"), Err(PipelineError::MissingTargetFormat));
    let mut builder = Builder::new();
    builder.set_shader_module("a.wgsl", "v", "f");
    builder.set_pixel_format(TextureFormat::Rgba8Unorm);
    assert_eq!(builder.build_pipeline("P"), Err(PipelineError::NoVertexBufferLayout));
}
