//! The plain data types of `wgpu` that this library speaks of.
//!
//! Each declaration makes one type of the graphics crate known to the
//! verifier, which then reads the type as the crate defines it: an enum
//! with its variants, a struct with its public fields. None of them is
//! opaque and nothing is assumed of any: a value of such a type is built
//! and taken apart in verified code like a value of a type of this
//! library. The structs below serve the declarations and nothing else.

use vstd::prelude::*;
use wgpu::{
    AstcBlock, AstcChannel, BlendComponent, BlendFactor, BlendOperation, BlendState,
    CompositeAlphaMode, Face, FrontFace, IndexFormat, MultisampleState, PolygonMode,
    PowerPreference, PresentMode, PrimitiveState, PrimitiveTopology, TextureFormat,
    VertexAttribute, VertexBufferLayout, VertexFormat, VertexStepMode,
};

verus! {

/// `wgpu::AstcBlock`.
#[verifier::external_type_specification]
pub struct ExAstcBlock(AstcBlock);

/// `wgpu::AstcChannel`.
#[verifier::external_type_specification]
pub struct ExAstcChannel(AstcChannel);

/// `wgpu::TextureFormat`.
#[verifier::external_type_specification]
pub struct ExTextureFormat(TextureFormat);

/// `wgpu::PresentMode`.
#[verifier::external_type_specification]
pub struct ExPresentMode(PresentMode);

/// `wgpu::CompositeAlphaMode`.
#[verifier::external_type_specification]
pub struct ExCompositeAlphaMode(CompositeAlphaMode);

/// `wgpu::PowerPreference`.
#[verifier::external_type_specification]
pub struct ExPowerPreference(PowerPreference);

/// `wgpu::VertexFormat`.
#[verifier::external_type_specification]
pub struct ExVertexFormat(VertexFormat);

/// `wgpu::VertexStepMode`.
#[verifier::external_type_specification]
pub struct ExVertexStepMode(VertexStepMode);

/// `wgpu::VertexAttribute`.
#[verifier::external_type_specification]
pub struct ExVertexAttribute(VertexAttribute);

/// `wgpu::VertexBufferLayout`.
#[verifier::external_type_specification]
pub struct ExVertexBufferLayout<'a>(VertexBufferLayout<'a>);

/// `wgpu::PrimitiveTopology`.
#[verifier::external_type_specification]
pub struct ExPrimitiveTopology(PrimitiveTopology);

/// `wgpu::FrontFace`.
#[verifier::external_type_specification]
pub struct ExFrontFace(FrontFace);

/// `wgpu::Face`.
#[verifier::external_type_specification]
pub struct ExFace(Face);

/// `wgpu::PolygonMode`.
#[verifier::external_type_specification]
pub struct ExPolygonMode(PolygonMode);

/// `wgpu::IndexFormat`.
#[verifier::external_type_specification]
pub struct ExIndexFormat(IndexFormat);

/// `wgpu::PrimitiveState`.
#[verifier::external_type_specification]
pub struct ExPrimitiveState(PrimitiveState);

/// `wgpu::MultisampleState`.
#[verifier::external_type_specification]
pub struct ExMultisampleState(MultisampleState);

/// `wgpu::BlendFactor`.
#[verifier::external_type_specification]
pub struct ExBlendFactor(BlendFactor);

/// `wgpu::BlendOperation`.
#[verifier::external_type_specification]
pub struct ExBlendOperation(BlendOperation);

/// `wgpu::BlendComponent`.
#[verifier::external_type_specification]
pub struct ExBlendComponent(BlendComponent);

/// `wgpu::BlendState`.
#[verifier::external_type_specification]
pub struct ExBlendState(BlendState);

} // verus!
