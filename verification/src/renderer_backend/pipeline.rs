//! Render pipelines: the builder that collects shader stages, vertex buffer
//! layouts, bind group layouts and the target format, and the descriptor it
//! finishes them into.

use crate::renderer_backend::bind_group_layout::BindGroupLayout;
use crate::renderer_backend::mesh_builder::VertexBufferLayout;
use vstd::prelude::*;

verus! {

/// A shader source and the entry points of its two stages.
#[derive(Debug, PartialEq, Eq)]
pub struct ShaderModule {
    pub path: String,
    pub vertex_entry: String,
    pub fragment_entry: String,
}

/// How vertices are assembled into primitives.
#[derive(Clone, Copy, Debug, PartialEq, Eq, Structural)]
pub enum PrimitiveTopology {
    PointList,
    LineList,
    LineStrip,
    TriangleList,
    TriangleStrip,
}

/// How a fragment is combined with what the target holds.
#[derive(Clone, Copy, Debug, PartialEq, Eq, Structural)]
pub enum BlendMode {
    /// The fragment replaces the target's value.
    Replace,
    /// The fragment is laid over the target's value by its alpha.
    AlphaBlending,
}

/// Everything a render pipeline is compiled from.
#[derive(Debug, PartialEq, Eq)]
pub struct RenderPipelineDescriptor {
    pub label: String,
    pub shader: ShaderModule,
    /// Vertex buffer layouts, by vertex buffer slot.
    pub vertex_buffers: Vec<VertexBufferLayout>,
    /// Bind group layouts, by group index.
    pub bind_group_layouts: Vec<BindGroupLayout>,
    pub target_format: wgpu::TextureFormat,
    pub topology: PrimitiveTopology,
    /// Whether the pipeline tests against a depth or stencil attachment.
    pub depth_stencil: bool,
    pub blend: BlendMode,
}

/// What a builder still lacks. Of several things, the one named first here
/// is reported.
#[derive(Clone, Copy, Debug, PartialEq, Eq, Structural)]
pub enum PipelineError {
    MissingShader,
    MissingTargetFormat,
    NoVertexBufferLayout,
    NoBindGroupLayout,
}

/// Collects the parts of a pipeline. The setters may be called in any order;
/// layouts keep the order they were added in.
#[derive(Debug)]
pub struct Builder {
    pub shader: Option<ShaderModule>,
    pub pixel_format: Option<wgpu::TextureFormat>,
    pub vertex_buffer_layouts: Vec<VertexBufferLayout>,
    pub bind_group_layouts: Vec<BindGroupLayout>,
}

impl Builder {
    /// What the builder lacks, if anything.
    pub open spec fn missing(&self) -> Option<PipelineError> {
        if self.shader.is_none() {
            Some(PipelineError::MissingShader)
        } else if self.pixel_format.is_none() {
            Some(PipelineError::MissingTargetFormat)
        } else if self.vertex_buffer_layouts@.len() == 0 {
            Some(PipelineError::NoVertexBufferLayout)
        } else if self.bind_group_layouts@.len() == 0 {
            Some(PipelineError::NoBindGroupLayout)
        } else {
            None
        }
    }

    pub fn new() -> (builder: Builder)
        ensures
            builder.shader.is_none(),
            builder.pixel_format.is_none(),
            builder.vertex_buffer_layouts@.len() == 0,
            builder.bind_group_layouts@.len() == 0,
    {
        Builder {
            shader: None,
            pixel_format: None,
            vertex_buffer_layouts: Vec::new(),
            bind_group_layouts: Vec::new(),
        }
    }

    /// Sets the shader source and the names of its vertex and fragment entry
    /// points.
    pub fn set_shader_module(&mut self, path: &str, vertex_entry: &str, fragment_entry: &str)
        ensures
            final(self).shader matches Some(shader) && shader.path@ == path@ && shader.vertex_entry@
                == vertex_entry@ && shader.fragment_entry@ == fragment_entry@,
            final(self).pixel_format == old(self).pixel_format,
            final(self).vertex_buffer_layouts == old(self).vertex_buffer_layouts,
            final(self).bind_group_layouts == old(self).bind_group_layouts,
    {
        self.shader = Some(
            ShaderModule {
                path: path.to_owned(),
                vertex_entry: vertex_entry.to_owned(),
                fragment_entry: fragment_entry.to_owned(),
            },
        );
    }

    /// Sets the format of the colour target the pipeline draws to.
    pub fn set_pixel_format(&mut self, format: wgpu::TextureFormat)
        ensures
            final(self).pixel_format == Some(format),
            final(self).shader == old(self).shader,
            final(self).vertex_buffer_layouts == old(self).vertex_buffer_layouts,
            final(self).bind_group_layouts == old(self).bind_group_layouts,
    {
        self.pixel_format = Some(format);
    }

    /// Adds the layout of the next vertex buffer slot.
    pub fn add_vertex_buffer_layout(&mut self, layout: VertexBufferLayout)
        ensures
            final(self).vertex_buffer_layouts@ == old(self).vertex_buffer_layouts@.push(layout),
            final(self).shader == old(self).shader,
            final(self).pixel_format == old(self).pixel_format,
            final(self).bind_group_layouts == old(self).bind_group_layouts,
    {
        self.vertex_buffer_layouts.push(layout);
    }

    /// Adds the layout of the next bind group index.
    pub fn add_bind_group_layout(&mut self, layout: BindGroupLayout)
        ensures
            final(self).bind_group_layouts@ == old(self).bind_group_layouts@.push(layout),
            final(self).shader == old(self).shader,
            final(self).pixel_format == old(self).pixel_format,
            final(self).vertex_buffer_layouts == old(self).vertex_buffer_layouts,
    {
        self.bind_group_layouts.push(layout);
    }

    /// Finishes the pipeline under the given label: the collected parts, a
    /// triangle list, no depth or stencil test, fragments replacing the
    /// target's value.
    pub fn build_pipeline(self, label: &str) -> (result: Result<
        RenderPipelineDescriptor,
        PipelineError,
    >)
        ensures
            match result {
                Ok(pipeline) => {
                    &&& self.missing().is_none()
                    &&& pipeline.label@ == label@
                    &&& self.shader == Some(pipeline.shader)
                    &&& self.pixel_format == Some(pipeline.target_format)
                    &&& pipeline.vertex_buffers == self.vertex_buffer_layouts
                    &&& pipeline.bind_group_layouts == self.bind_group_layouts
                    &&& pipeline.topology == PrimitiveTopology::TriangleList
                    &&& !pipeline.depth_stencil
                    &&& pipeline.blend == BlendMode::Replace
                },
                Err(error) => self.missing() == Some(error),
            },
    {
        let shader = match self.shader {
            Some(shader) => shader,
            None => {
                return Err(PipelineError::MissingShader);
            },
        };
        let target_format = match self.pixel_format {
            Some(format) => format,
            None => {
                return Err(PipelineError::MissingTargetFormat);
            },
        };
        if self.vertex_buffer_layouts.len() == 0 {
            return Err(PipelineError::NoVertexBufferLayout);
        }
        if self.bind_group_layouts.len() == 0 {
            return Err(PipelineError::NoBindGroupLayout);
        }
        Ok(
            RenderPipelineDescriptor {
                label: label.to_owned(),
                shader,
                vertex_buffers: self.vertex_buffer_layouts,
                bind_group_layouts: self.bind_group_layouts,
                target_format,
                topology: PrimitiveTopology::TriangleList,
                depth_stencil: false,
                blend: BlendMode::Replace,
            },
        )
    }
}

} // verus!
