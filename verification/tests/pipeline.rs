use wgpu::{
    BlendState, Face, FrontFace, MultisampleState, PolygonMode, PrimitiveState,
    PrimitiveTopology, TextureFormat,
};
use xapp::pipeline::{ColorChannels, PipelineDescriptor};
use xapp::vertex::Vertex;

#[test]
fn pipeline_names_both_shader_stages() {
    let descriptor = PipelineDescriptor::new(TextureFormat::Bgra8UnormSrgb);
    assert_eq!(descriptor.vertex_entry_point, "vs_main");
    assert_eq!(descriptor.fragment_entry_point, "fs_main");
}

#[test]
fn pipeline_reads_the_vertex_layout() {
    let descriptor = PipelineDescriptor::new(TextureFormat::Bgra8UnormSrgb);
    assert_eq!(descriptor.vertex_buffer, Vertex::desc());
}

#[test]
fn pipeline_draws_culled_triangle_lists() {
    let descriptor = PipelineDescriptor::new(TextureFormat::Bgra8UnormSrgb);
    assert_eq!(
        descriptor.primitive,
        PrimitiveState {
            topology: PrimitiveTopology::TriangleList,
            strip_index_format: None,
            front_face: FrontFace::Ccw,
            cull_mode: Some(Face::Back),
            unclipped_depth: false,
            polygon_mode: PolygonMode::Fill,
            conservative: false,
        }
    );
}

#[test]
fn pipeline_takes_one_sample_for_each_pixel() {
    let descriptor = PipelineDescriptor::new(TextureFormat::Bgra8UnormSrgb);
    assert_eq!(
        descriptor.multisample,
        MultisampleState { count: 1, mask: !0, alpha_to_coverage_enabled: false }
    );
}

#[test]
fn pipeline_replaces_and_writes_every_channel() {
    let descriptor = PipelineDescriptor::new(TextureFormat::Bgra8UnormSrgb);
    assert_eq!(descriptor.target.blend, BlendState::REPLACE);
    assert_eq!(
        descriptor.target.write_mask,
        ColorChannels { red: true, green: true, blue: true, alpha: true }
    );
}

#[test]
fn pipeline_targets_the_given_format() {
    for format in
        [TextureFormat::Bgra8UnormSrgb, TextureFormat::Rgba8Unorm, TextureFormat::Rgba16Float]
    {
        assert_eq!(PipelineDescriptor::new(format).target.format, format);
    }
}

#[test]
fn pipelines_differ_in_the_format_alone() {
    let mut one = PipelineDescriptor::new(TextureFormat::Bgra8UnormSrgb);
    let other = PipelineDescriptor::new(TextureFormat::Rgba8Unorm);
    assert_ne!(one, other);
    one.target.format = TextureFormat::Rgba8Unorm;
    assert_eq!(one, other);
}
