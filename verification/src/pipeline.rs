//! The one render pipeline of the shell: two shader stages, one vertex
//! buffer, fixed rasterisation and blending. A pipeline described here has
//! no depth or stencil test: the description has no place for one.

use vstd::prelude::*;
use wgpu::{
    BlendComponent, BlendFactor, BlendOperation, BlendState, Face, FrontFace, MultisampleState,
    PolygonMode, PrimitiveState, PrimitiveTopology, TextureFormat, VertexBufferLayout,
};
use crate::vertex::Vertex;

verus! {

/// The colour channels that a pipeline writes.
#[derive(Clone, Copy, Debug, PartialEq, Eq, Structural)]
pub struct ColorChannels {
    pub red: bool,
    pub green: bool,
    pub blue: bool,
    pub alpha: bool,
}

/// The image that a pipeline draws to: its format, how a new colour meets
/// the one already there, and which channels are written.
#[derive(Clone, Copy, Debug, PartialEq, Eq)]
pub struct ColorTarget {
    pub format: TextureFormat,
    pub blend: BlendState,
    pub write_mask: ColorChannels,
}

/// What the graphics system needs to know to build the pipeline.
#[derive(Debug, PartialEq, Eq)]
pub struct PipelineDescriptor {
    /// The function of the shader that places a vertex.
    pub vertex_entry_point: &'static str,
    /// The function of the shader that colours a fragment.
    pub fragment_entry_point: &'static str,
    /// The layout of the one vertex buffer.
    pub vertex_buffer: VertexBufferLayout<'static>,
    pub primitive: PrimitiveState,
    pub multisample: MultisampleState,
    pub target: ColorTarget,
}

/// Blending that overwrites: the new colour taken whole, the old one not at
/// all, for the colour and for alpha alike.
pub open spec fn replace_blend() -> BlendState {
    BlendState {
        color: BlendComponent {
            src_factor: BlendFactor::One,
            dst_factor: BlendFactor::Zero,
            operation: BlendOperation::Add,
        },
        alpha: BlendComponent {
            src_factor: BlendFactor::One,
            dst_factor: BlendFactor::Zero,
            operation: BlendOperation::Add,
        },
    }
}

/// Rasterisation of the triangle: a list of separate triangles, filled,
/// wound counter-clockwise when seen from the front, their backs culled.
pub open spec fn triangle_primitive() -> PrimitiveState {
    PrimitiveState {
        topology: PrimitiveTopology::TriangleList,
        strip_index_format: None,
        front_face: FrontFace::Ccw,
        cull_mode: Some(Face::Back),
        unclipped_depth: false,
        polygon_mode: PolygonMode::Fill,
        conservative: false,
    }
}

/// One sample for each pixel, every sample enabled.
pub open spec fn single_sample() -> MultisampleState {
    MultisampleState { count: 1, mask: 0xFFFF_FFFF_FFFF_FFFF, alpha_to_coverage_enabled: false }
}

impl PipelineDescriptor {
    /// The pipeline that draws to images of the given format.
    pub open spec fn for_format(format: TextureFormat) -> PipelineDescriptor {
        PipelineDescriptor {
            vertex_entry_point: "vs_main",
            fragment_entry_point: "fs_main",
            vertex_buffer: Vertex::layout(),
            primitive: triangle_primitive(),
            multisample: single_sample(),
            target: ColorTarget {
                format,
                blend: replace_blend(),
                write_mask: ColorChannels { red: true, green: true, blue: true, alpha: true },
            },
        }
    }

    /// Describes the pipeline for a surface of the given format. The format
    /// is the only thing about it that is not fixed.
    pub fn new(format: TextureFormat) -> (descriptor: PipelineDescriptor)
        ensures
            descriptor == PipelineDescriptor::for_format(format),
            descriptor.target.format == format,
    {
        let replace = BlendComponent {
            src_factor: BlendFactor::One,
            dst_factor: BlendFactor::Zero,
            operation: BlendOperation::Add,
        };
        PipelineDescriptor {
            vertex_entry_point: "vs_main",
            fragment_entry_point: "fs_main",
            vertex_buffer: Vertex::desc(),
            primitive: PrimitiveState {
                topology: PrimitiveTopology::TriangleList,
                strip_index_format: None,
                front_face: FrontFace::Ccw,
                cull_mode: Some(Face::Back),
                unclipped_depth: false,
                polygon_mode: PolygonMode::Fill,
                conservative: false,
            },
            multisample: MultisampleState {
                count: 1,
                mask: u64::MAX,
                alpha_to_coverage_enabled: false,
            },
            target: ColorTarget {
                format,
                blend: BlendState { color: replace, alpha: replace },
                write_mask: ColorChannels { red: true, green: true, blue: true, alpha: true },
            },
        }
    }
}

} // verus!
