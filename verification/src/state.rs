//! The render state: the surface configuration, the pipeline, and the two
//! primitives with their materials; what one frame draws, and how the state
//! follows the framebuffer's size.

use crate::renderer_backend::bind_group_layout;
use crate::renderer_backend::bind_group_layout::material_entries;
use crate::renderer_backend::material::conforms;
use crate::renderer_backend::material::is_material_of;
use crate::renderer_backend::material::material_error;
use crate::renderer_backend::material::ImageData;
use crate::renderer_backend::material::Material;
use crate::renderer_backend::material::MaterialError;
use crate::renderer_backend::mesh_builder::make_quad;
use crate::renderer_backend::mesh_builder::make_triangle;
use crate::renderer_backend::mesh_builder::packed_attributes;
use crate::renderer_backend::mesh_builder::quad_view;
use crate::renderer_backend::mesh_builder::triangle_view;
use crate::renderer_backend::mesh_builder::Mesh;
use crate::renderer_backend::mesh_builder::MeshView;
use crate::renderer_backend::mesh_builder::Vertex;
use crate::renderer_backend::mesh_builder::VertexStepMode;
use crate::renderer_backend::mesh_builder::VERTEX_SIZE;
use crate::renderer_backend::pipeline;
use crate::renderer_backend::pipeline::BlendMode;
use crate::renderer_backend::pipeline::PrimitiveTopology;
use crate::renderer_backend::pipeline::RenderPipelineDescriptor;
use crate::surface::configuration_error;
use crate::surface::initial_configuration;
use crate::surface::is_initial_configuration;
use crate::surface::is_valid_size;
use crate::surface::ConfigError;
use crate::surface::SurfaceCapabilities;
use crate::surface::SurfaceConfig;
use crate::surface::SurfaceError;
use vstd::prelude::*;

verus! {

/// One of the two primitives the renderer draws; it names the primitive's
/// mesh and its material alike.
#[derive(Clone, Copy, Debug, PartialEq, Eq, Structural)]
pub enum Primitive {
    Quad,
    Triangle,
}

/// Width of the indices of an index buffer.
#[derive(Clone, Copy, Debug, PartialEq, Eq, Structural)]
pub enum IndexFormat {
    Uint16,
    Uint32,
}

/// A colour of four double-precision channels, each held as its IEEE-754 bit
/// pattern.
#[derive(Clone, Copy, Debug, PartialEq, Eq, Structural)]
pub struct Color {
    pub r: u64,
    pub g: u64,
    pub b: u64,
    pub a: u64,
}

/// Bit pattern of the background's red channel, `0.75`.
pub const CLEAR_RED: u64 = 0x3FE8_0000_0000_0000;

/// Bit pattern of the background's green channel, `0.5`.
pub const CLEAR_GREEN: u64 = 0x3FE0_0000_0000_0000;

/// Bit pattern of the background's blue channel, `0.25`.
pub const CLEAR_BLUE: u64 = 0x3FD0_0000_0000_0000;

/// Bit pattern of the background's alpha channel, `1.0`.
pub const CLEAR_ALPHA: u64 = 0x3FF0_0000_0000_0000;

/// The background every frame is cleared to.
pub open spec fn spec_clear_color() -> Color {
    Color { r: CLEAR_RED, g: CLEAR_GREEN, b: CLEAR_BLUE, a: CLEAR_ALPHA }
}

/// The background every frame is cleared to.
#[verifier::when_used_as_spec(spec_clear_color)]
pub fn clear_color() -> (color: Color)
    ensures
        color == spec_clear_color(),
{
    Color { r: CLEAR_RED, g: CLEAR_GREEN, b: CLEAR_BLUE, a: CLEAR_ALPHA }
}

/// One step of recording and presenting a frame.
#[derive(Clone, Copy, Debug, PartialEq, Eq, Structural)]
pub enum RenderCommand {
    /// Opens the render pass on the acquired frame, clearing its colour
    /// target; the pass has no depth attachment.
    BeginRenderPass { clear: Color },
    SetPipeline,
    SetBindGroup { index: u32, material: Primitive },
    SetVertexBuffer { slot: u32, mesh: Primitive },
    SetIndexBuffer { mesh: Primitive, format: IndexFormat },
    /// Draws indices `0..index_count` for instances `0..instance_count`.
    DrawIndexed { index_count: u32, instance_count: u32 },
    /// Draws vertices `0..vertex_count` for instances `0..instance_count`.
    Draw { vertex_count: u32, instance_count: u32 },
    EndRenderPass,
    /// Submits the recorded commands to the queue.
    Submit,
    /// Presents the acquired frame.
    Present,
}

/// The commands that draw one primitive: its material at group 0, its
/// vertices at slot 0, then an indexed draw of all its indices if it has
/// any, else a draw of all its vertices; one instance either way.
pub open spec fn draw_commands(primitive: Primitive, mesh: MeshView) -> Seq<RenderCommand> {
    let bind = seq![
        RenderCommand::SetBindGroup { index: 0, material: primitive },
        RenderCommand::SetVertexBuffer { slot: 0, mesh: primitive },
    ];
    match mesh.indices {
        Some(indices) => bind + seq![
            RenderCommand::SetIndexBuffer { mesh: primitive, format: IndexFormat::Uint16 },
            RenderCommand::DrawIndexed { index_count: indices.len() as u32, instance_count: 1 },
        ],
        None => bind + seq![
            RenderCommand::Draw { vertex_count: mesh.vertices.len() as u32, instance_count: 1 },
        ],
    }
}

/// The commands of one frame: one pass that clears the target, binds the
/// pipeline and draws the quad, then the triangle; then submit and present.
pub open spec fn frame_commands(quad: MeshView, triangle: MeshView) -> Seq<RenderCommand> {
    seq![RenderCommand::BeginRenderPass { clear: clear_color() }, RenderCommand::SetPipeline]
        + draw_commands(Primitive::Quad, quad) + draw_commands(Primitive::Triangle, triangle)
        + seq![RenderCommand::EndRenderPass, RenderCommand::Submit, RenderCommand::Present]
}

/// The frame of the built-in quad and triangle, command by command.
pub open spec fn builtin_frame() -> Seq<RenderCommand> {
    seq![
        RenderCommand::BeginRenderPass { clear: clear_color() },
        RenderCommand::SetPipeline,
        RenderCommand::SetBindGroup { index: 0, material: Primitive::Quad },
        RenderCommand::SetVertexBuffer { slot: 0, mesh: Primitive::Quad },
        RenderCommand::SetIndexBuffer { mesh: Primitive::Quad, format: IndexFormat::Uint16 },
        RenderCommand::DrawIndexed { index_count: 6, instance_count: 1 },
        RenderCommand::SetBindGroup { index: 0, material: Primitive::Triangle },
        RenderCommand::SetVertexBuffer { slot: 0, mesh: Primitive::Triangle },
        RenderCommand::Draw { vertex_count: 3, instance_count: 1 },
        RenderCommand::EndRenderPass,
        RenderCommand::Submit,
        RenderCommand::Present,
    ]
}

fn record_draw(commands: &mut Vec<RenderCommand>, primitive: Primitive, mesh: &Mesh)
    ensures
        final(commands)@ == old(commands)@ + draw_commands(primitive, mesh@),
{
    commands.push(RenderCommand::SetBindGroup { index: 0, material: primitive });
    commands.push(RenderCommand::SetVertexBuffer { slot: 0, mesh: primitive });
    if mesh.is_indexed() {
        commands.push(
            RenderCommand::SetIndexBuffer { mesh: primitive, format: IndexFormat::Uint16 },
        );
        commands.push(
            RenderCommand::DrawIndexed { index_count: mesh.index_count(), instance_count: 1 },
        );
    } else {
        commands.push(
            RenderCommand::Draw { vertex_count: mesh.vertex_count(), instance_count: 1 },
        );
    }
    assert(commands@ =~= old(commands)@ + draw_commands(primitive, mesh@));
}

/// Records the commands of one frame.
pub fn record_frame(quad: &Mesh, triangle: &Mesh) -> (commands: Vec<RenderCommand>)
    ensures
        commands@ == frame_commands(quad@, triangle@),
{
    let mut commands: Vec<RenderCommand> = Vec::new();
    commands.push(RenderCommand::BeginRenderPass { clear: clear_color() });
    commands.push(RenderCommand::SetPipeline);
    record_draw(&mut commands, Primitive::Quad, quad);
    record_draw(&mut commands, Primitive::Triangle, triangle);
    commands.push(RenderCommand::EndRenderPass);
    commands.push(RenderCommand::Submit);
    commands.push(RenderCommand::Present);
    assert(commands@ =~= frame_commands(quad@, triangle@));
    commands
}

/// Name of the vertex stage's entry point in the shader source.
pub const VERTEX_ENTRY: &'static str = "vs_main";

/// Name of the fragment stage's entry point in the shader source.
pub const FRAGMENT_ENTRY: &'static str = "fs_main";

/// Label of the render pipeline.
pub const PIPELINE_LABEL: &'static str = "Render Pipeline";

/// Label of the bind group layout that the materials fill.
pub const MATERIAL_LAYOUT_LABEL: &'static str = "Material Bind Group Layout";

/// What the render state is made from besides the surface: where the shader
/// source lies, and the decoded image of each primitive's material.
#[derive(Debug, PartialEq, Eq)]
pub struct Assets {
    pub shader_path: String,
    pub quad_image: ImageData,
    pub triangle_image: ImageData,
}

/// Why the render state cannot be made.
#[derive(Clone, Copy, Debug, PartialEq, Eq, Structural)]
pub enum InitError {
    Surface(ConfigError),
    QuadMaterial(MaterialError),
    TriangleMaterial(MaterialError),
}

/// The error, if any, that stands in the way of a render state: the
/// surface's, else the quad material's, else the triangle material's.
pub open spec fn init_error(
    size: (i32, i32),
    capabilities: SurfaceCapabilities,
    assets: Assets,
) -> Option<InitError> {
    if let Some(error) = configuration_error(size, capabilities) {
        Some(InitError::Surface(error))
    } else if let Some(error) = material_error(assets.quad_image, material_entries(0)) {
        Some(InitError::QuadMaterial(error))
    } else if let Some(error) = material_error(assets.triangle_image, material_entries(0)) {
        Some(InitError::TriangleMaterial(error))
    } else {
        None
    }
}

/// The state of the renderer of one window.
#[derive(Debug)]
pub struct RenderState {
    config: SurfaceConfig,
    pipeline: RenderPipelineDescriptor,
    quad_mesh: Mesh,
    triangle_mesh: Mesh,
    quad_material: Material,
    triangle_material: Material,
}

impl RenderState {
    pub closed spec fn spec_config(&self) -> SurfaceConfig {
        self.config
    }

    /// The framebuffer size last applied: the configuration's dimensions.
    pub open spec fn spec_size(&self) -> (i32, i32) {
        (self.spec_config().width as i32, self.spec_config().height as i32)
    }

    pub closed spec fn spec_pipeline(&self) -> RenderPipelineDescriptor {
        self.pipeline
    }

    pub closed spec fn spec_mesh(&self, primitive: Primitive) -> Mesh {
        match primitive {
            Primitive::Quad => self.quad_mesh,
            Primitive::Triangle => self.triangle_mesh,
        }
    }

    pub closed spec fn spec_material(&self, primitive: Primitive) -> Material {
        match primitive {
            Primitive::Quad => self.quad_material,
            Primitive::Triangle => self.triangle_material,
        }
    }

    /// The pipeline is the renderer's fixed pipeline: one buffer of packed
    /// vertices, one material at group 0, a triangle list without depth test
    /// or blending.
    pub open spec fn pipeline_well_formed(&self) -> bool {
        let pipeline = self.spec_pipeline();
        &&& pipeline.vertex_buffers@.len() == 1
        &&& pipeline.vertex_buffers@[0].array_stride == VERTEX_SIZE
        &&& pipeline.vertex_buffers@[0].step_mode == VertexStepMode::Vertex
        &&& pipeline.vertex_buffers@[0].attributes@ == packed_attributes(
            Vertex::field_declarations(),
        )
        &&& pipeline.bind_group_layouts@.len() == 1
        &&& pipeline.bind_group_layouts@[0].entries@ == material_entries(0)
        &&& pipeline.topology == PrimitiveTopology::TriangleList
        &&& !pipeline.depth_stencil
        &&& pipeline.blend == BlendMode::Replace
    }

    /// What holds of every render state:
    /// the configuration has the size of a framebuffer that is not empty;
    /// the pipeline draws to the configured format;
    /// each material's bind group fills the pipeline's layout at group 0;
    /// and the meshes are the built-in quad and triangle.
    #[verifier::type_invariant]
    pub open spec fn well_formed(&self) -> bool {
        &&& 0 < self.spec_config().width <= i32::MAX
        &&& 0 < self.spec_config().height <= i32::MAX
        &&& self.spec_pipeline().target_format == self.spec_config().format
        &&& self.pipeline_well_formed()
        &&& conforms(
            self.spec_material(Primitive::Quad).bind_group@,
            self.spec_pipeline().bind_group_layouts@[0].entries@,
        )
        &&& conforms(
            self.spec_material(Primitive::Triangle).bind_group@,
            self.spec_pipeline().bind_group_layouts@[0].entries@,
        )
        &&& self.spec_mesh(Primitive::Quad)@ == quad_view()
        &&& self.spec_mesh(Primitive::Triangle)@ == triangle_view()
    }

    /// The state after a request to resize to `new_size`: the
    /// configuration's dimensions follow a size that is not empty, and
    /// nothing changes for one that is.
    pub closed spec fn resized(self, new_size: (i32, i32)) -> RenderState {
        if is_valid_size(new_size) {
            RenderState {
                config: SurfaceConfig {
                    width: new_size.0 as u32,
                    height: new_size.1 as u32,
                    ..self.config
                },
                ..self
            }
        } else {
            self
        }
    }

    /// What `render` gives for the outcome of acquiring the next frame: the
    /// frame's commands, or the error the acquisition failed with.
    pub open spec fn rendered(self, acquired: Result<(), SurfaceError>) -> Result<
        Seq<RenderCommand>,
        SurfaceError,
    > {
        match acquired {
            Ok(_) => Ok(
                frame_commands(
                    self.spec_mesh(Primitive::Quad)@,
                    self.spec_mesh(Primitive::Triangle)@,
                ),
            ),
            Err(error) => Err(error),
        }
    }

    /// Makes the render state of a surface with the given framebuffer size
    /// and capabilities: configures the surface, builds the meshes, the bind
    /// group layout and the pipeline for the configured format, then the two
    /// materials against the layout.
    pub fn new(size: (i32, i32), capabilities: &SurfaceCapabilities, assets: Assets) -> (result:
        Result<RenderState, InitError>)
        ensures
            match result {
                Ok(state) => {
                    &&& init_error(size, *capabilities, assets).is_none()
                    &&& state.well_formed()
                    &&& state.spec_size() == size
                    &&& is_initial_configuration(state.spec_config(), size, *capabilities)
                    &&& state.spec_pipeline().label@ == PIPELINE_LABEL@
                    &&& state.spec_pipeline().shader.path@ == assets.shader_path@
                    &&& state.spec_pipeline().shader.vertex_entry@ == VERTEX_ENTRY@
                    &&& state.spec_pipeline().shader.fragment_entry@ == FRAGMENT_ENTRY@
                    &&& state.spec_pipeline().bind_group_layouts@[0].label@
                        == MATERIAL_LAYOUT_LABEL@
                    &&& is_material_of(state.spec_material(Primitive::Quad), assets.quad_image)
                    &&& is_material_of(
                        state.spec_material(Primitive::Triangle),
                        assets.triangle_image,
                    )
                },
                Err(error) => init_error(size, *capabilities, assets) == Some(error),
            },
    {
        let config = match initial_configuration(size, capabilities) {
            Ok(config) => config,
            Err(error) => {
                return Err(InitError::Surface(error));
            },
        };
        let quad_mesh = make_quad();
        let triangle_mesh = make_triangle();

        let mut layout_builder = bind_group_layout::Builder::new();
        layout_builder.add_material();
        let material_layout = layout_builder.build(MATERIAL_LAYOUT_LABEL);

        let mut pipeline_builder = pipeline::Builder::new();
        pipeline_builder.set_shader_module(assets.shader_path.as_str(), VERTEX_ENTRY, FRAGMENT_ENTRY);
        pipeline_builder.set_pixel_format(config.format);
        pipeline_builder.add_vertex_buffer_layout(Vertex::get_layout());
        pipeline_builder.add_bind_group_layout(material_layout);
        let pipeline = match pipeline_builder.build_pipeline(PIPELINE_LABEL) {
            Ok(pipeline) => pipeline,
            Err(_) => vstd::pervasive::unreached(),
        };

        let quad_material = match Material::new(assets.quad_image, &pipeline.bind_group_layouts[0]) {
            Ok(material) => material,
            Err(error) => {
                return Err(InitError::QuadMaterial(error));
            },
        };
        let triangle_material = match Material::new(
            assets.triangle_image,
            &pipeline.bind_group_layouts[0],
        ) {
            Ok(material) => material,
            Err(error) => {
                return Err(InitError::TriangleMaterial(error));
            },
        };
        Ok(
            RenderState {
                config,
                pipeline,
                quad_mesh,
                triangle_mesh,
                quad_material,
                triangle_material,
            },
        )
    }

    #[verifier::when_used_as_spec(spec_config)]
    pub fn config(&self) -> (config: SurfaceConfig)
        ensures
            config == self.spec_config(),
    {
        self.config
    }

    /// The framebuffer size last applied.
    #[verifier::when_used_as_spec(spec_size)]
    pub fn size(&self) -> (size: (i32, i32))
        ensures
            size == self.spec_size(),
            is_valid_size(size),
    {
        proof {
            use_type_invariant(self);
        }
        (self.config.width as i32, self.config.height as i32)
    }

    pub fn pipeline(&self) -> (pipeline: &RenderPipelineDescriptor)
        ensures
            *pipeline == self.spec_pipeline(),
    {
        &self.pipeline
    }

    pub fn mesh(&self, primitive: Primitive) -> (mesh: &Mesh)
        ensures
            *mesh == self.spec_mesh(primitive),
    {
        match primitive {
            Primitive::Quad => &self.quad_mesh,
            Primitive::Triangle => &self.triangle_mesh,
        }
    }

    pub fn material(&self, primitive: Primitive) -> (material: &Material)
        ensures
            *material == self.spec_material(primitive),
    {
        match primitive {
            Primitive::Quad => &self.quad_material,
            Primitive::Triangle => &self.triangle_material,
        }
    }

    /// Follows the framebuffer to a new size. A size that is not empty
    /// becomes the state's size and the configuration's dimensions, and the
    /// surface is to be configured again; an empty one changes nothing.
    /// Returns whether the size was applied.
    pub fn resize(&mut self, new_size: (i32, i32)) -> (applied: bool)
        ensures
            applied == is_valid_size(new_size),
            *final(self) == old(self).resized(new_size),
            final(self).well_formed(),
            applied ==> final(self).spec_size() == new_size,
            applied ==> final(self).spec_config().width == new_size.0,
            applied ==> final(self).spec_config().height == new_size.1,
            !applied ==> *final(self) == *old(self),
            final(self).spec_config().format == old(self).spec_config().format,
            final(self).spec_config().present_mode == old(self).spec_config().present_mode,
            final(self).spec_config().alpha_mode == old(self).spec_config().alpha_mode,
            final(self).spec_config().desired_maximum_frame_latency
                == old(self).spec_config().desired_maximum_frame_latency,
            final(self).spec_pipeline() == old(self).spec_pipeline(),
            forall|p: Primitive| final(self).spec_mesh(p) == old(self).spec_mesh(p),
            forall|p: Primitive| final(self).spec_material(p) == old(self).spec_material(p),
    {
        proof {
            use_type_invariant(&*self);
        }
        if new_size.0 > 0 && new_size.1 > 0 {
            self.config.width = new_size.0 as u32;
            self.config.height = new_size.1 as u32;
            true
        } else {
            false
        }
    }

    /// Draws one frame, given the outcome of acquiring the surface's next
    /// image: the commands that record and present the frame, or the error
    /// the acquisition failed with.
    pub fn render(&self, acquired: Result<(), SurfaceError>) -> (result: Result<
        Vec<RenderCommand>,
        SurfaceError,
    >)
        ensures
            match result {
                Ok(commands) => self.rendered(acquired) == Ok::<Seq<RenderCommand>, SurfaceError>(
                    commands@,
                ) && commands@ == builtin_frame(),
                Err(error) => acquired == Err::<(), SurfaceError>(error),
            },
    {
        match acquired {
            Ok(_) => {
                proof {
                    use_type_invariant(self);
                    lemma_builtin_frame();
                }
                Ok(record_frame(&self.quad_mesh, &self.triangle_mesh))
            },
            Err(error) => Err(error),
        }
    }
}

/// The frame of the built-in meshes is the built-in frame.
pub proof fn lemma_builtin_frame()
    ensures
        frame_commands(quad_view(), triangle_view()) == builtin_frame(),
{
    assert(frame_commands(quad_view(), triangle_view()) =~= builtin_frame());
}

/// After a resize to a size that is not empty, the configuration has exactly
/// that size, the invariant still holds, and a frame acquired next is drawn
/// in full.
pub proof fn lemma_resize_then_render(state: RenderState, width: i32, height: i32)
    requires
        state.well_formed(),
        width > 0,
        height > 0,
    ensures
        state.resized((width, height)).well_formed(),
        state.resized((width, height)).spec_size() == (width, height),
        state.resized((width, height)).spec_config().width == width,
        state.resized((width, height)).spec_config().height == height,
        state.resized((width, height)).rendered(Ok(())) == Ok::<Seq<RenderCommand>, SurfaceError>(
            builtin_frame(),
        ),
{
    lemma_builtin_frame();
}

/// A resize to a size with a zero or negative dimension leaves the state,
/// and with it the configuration, exactly as it was.
pub proof fn lemma_resize_ignores_empty_size(state: RenderState, new_size: (i32, i32))
    requires
        new_size.0 <= 0 || new_size.1 <= 0,
    ensures
        state.resized(new_size) == state,
        state.resized(new_size).spec_config() == state.spec_config(),
{
}

/// Asking twice for the same size is the same as asking once, and asking
/// for the size the state already has changes nothing.
pub proof fn lemma_resize_idempotent(state: RenderState, new_size: (i32, i32))
    requires
        state.well_formed(),
    ensures
        state.resized(new_size).resized(new_size) == state.resized(new_size),
        state.resized(state.spec_size()) == state,
{
}

} // verus!
