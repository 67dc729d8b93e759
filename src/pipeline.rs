use vstd::prelude::*;
use crate::geometry::VERTEX_STRIDE;

verus! {

/// Entry point of the vertex stage in the shading program.
pub const VERTEX_ENTRY_POINT: &'static str = "vs_main";

/// Entry point of the fragment stage in the shading program.
pub const FRAGMENT_ENTRY_POINT: &'static str = "fs_main";

/// Layout of one vertex attribute.
#[derive(Clone, Copy, Debug, PartialEq, Eq, Structural)]
pub enum AttributeFormat {
    /// Three 32-bit floats.
    Float32x3,
}

/// How the vertex buffer advances.
#[derive(Clone, Copy, Debug, PartialEq, Eq, Structural)]
pub enum StepMode {
    PerVertex,
    PerInstance,
}

/// The shader stage a binding is visible to.
#[derive(Clone, Copy, Debug, PartialEq, Eq, Structural)]
pub enum Visibility {
    VertexStage,
    FragmentStage,
}

/// How fragments are written to the color target.
#[derive(Clone, Copy, Debug, PartialEq, Eq, Structural)]
pub enum Blend {
    /// Fully opaque replace.
    Replace,
    /// Standard straight alpha blending.
    AlphaBlending,
}

/// Which triangles the rasterizer discards.
#[derive(Clone, Copy, Debug, PartialEq, Eq, Structural)]
pub enum Cull {
    BackFaces,
    FrontFaces,
    Nothing,
}

/// How vertices are assembled into primitives.
#[derive(Clone, Copy, Debug, PartialEq, Eq, Structural)]
pub enum Topology {
    TriangleList,
    TriangleStrip,
    LineList,
    PointList,
}

/// How triangles are rasterized.
#[derive(Clone, Copy, Debug, PartialEq, Eq, Structural)]
pub enum PolygonFill {
    Fill,
    Line,
    Point,
}

/// The single vertex attribute: its format, byte offset and shader location.
#[derive(Clone, Copy, Debug, PartialEq, Eq, Structural)]
pub struct AttributeDesc {
    pub format: AttributeFormat,
    pub offset: u64,
    pub shader_location: u32,
}

/// The single vertex buffer slot.
#[derive(Clone, Copy, Debug, PartialEq, Eq, Structural)]
pub struct VertexLayoutDesc {
    pub array_stride: u64,
    pub step_mode: StepMode,
    pub attribute: AttributeDesc,
}

/// The binding of the material buffer.
#[derive(Clone, Copy, Debug, PartialEq, Eq, Structural)]
pub struct MaterialBindingDesc {
    pub binding: u32,
    pub visibility: Visibility,
    pub read_only_storage: bool,
    pub has_dynamic_offset: bool,
    pub min_binding_size: Option<u64>,
    /// Number of array elements; `None` for a single buffer, not an array.
    pub count: Option<u32>,
    /// The bind group binds the whole material buffer.
    pub binds_whole_buffer: bool,
}

/// The immutable description of the render pipeline.
#[derive(Clone, Copy, Debug)]
pub struct PipelineDesc {
    pub vertex_layout: VertexLayoutDesc,
    /// The bind group layout at index 0, present when there are materials.
    pub material_binding: Option<MaterialBindingDesc>,
    /// Number of push-constant ranges in the pipeline layout.
    pub push_constant_ranges: u32,
    pub blend: Blend,
    pub color_format: wgpu::TextureFormat,
    /// Every color channel is written.
    pub write_all_channels: bool,
    pub topology: Topology,
    /// Whether strip primitives are cut by an index format; never, for lists.
    pub strip_index_format: bool,
    /// Front faces wind counter-clockwise.
    pub counter_clockwise_front: bool,
    pub cull: Cull,
    pub polygon_fill: PolygonFill,
    pub depth_stencil: bool,
    pub sample_count: u32,
    pub sample_mask: u64,
    pub alpha_to_coverage: bool,
}

/// One buffer slot with one per-vertex attribute of three floats at location 0.
pub open spec fn vertex_layout_spec() -> VertexLayoutDesc {
    VertexLayoutDesc {
        array_stride: VERTEX_STRIDE,
        step_mode: StepMode::PerVertex,
        attribute: AttributeDesc { format: AttributeFormat::Float32x3, offset: 0, shader_location: 0 },
    }
}

/// Binding 0, fragment stage only, read-only storage, no dynamic offset, no
/// declared minimum size, not an array; the group binds the whole buffer.
pub open spec fn material_binding_spec() -> MaterialBindingDesc {
    MaterialBindingDesc {
        binding: 0,
        visibility: Visibility::FragmentStage,
        read_only_storage: true,
        has_dynamic_offset: false,
        min_binding_size: None,
        count: None,
        binds_whole_buffer: true,
    }
}

/// The pipeline built for a color format, with or without the material path:
/// triangle lists, counter-clockwise front faces, back faces culled, solid fill,
/// no depth or stencil, one sample with every sample bit set, no
/// alpha-to-coverage, all color channels written, no push constants.
pub open spec fn pipeline_spec(color_format: wgpu::TextureFormat, with_materials: bool) -> PipelineDesc {
    PipelineDesc {
        vertex_layout: vertex_layout_spec(),
        material_binding: if with_materials { Some(material_binding_spec()) } else { None },
        push_constant_ranges: 0,
        blend: if with_materials { Blend::AlphaBlending } else { Blend::Replace },
        color_format,
        write_all_channels: true,
        topology: Topology::TriangleList,
        strip_index_format: false,
        counter_clockwise_front: true,
        cull: Cull::BackFaces,
        polygon_fill: PolygonFill::Fill,
        depth_stencil: false,
        sample_count: 1,
        sample_mask: 0xffff_ffff_ffff_ffff,
        alpha_to_coverage: false,
    }
}

/// The layout of the vertex buffer as the pipeline reads it.
pub fn vertex_layout() -> (r: VertexLayoutDesc)
    ensures
        r == vertex_layout_spec(),
{
    VertexLayoutDesc {
        array_stride: VERTEX_STRIDE,
        step_mode: StepMode::PerVertex,
        attribute: AttributeDesc { format: AttributeFormat::Float32x3, offset: 0, shader_location: 0 },
    }
}

/// The layout of the material binding.
pub fn material_binding() -> (r: MaterialBindingDesc)
    ensures
        r == material_binding_spec(),
{
    MaterialBindingDesc {
        binding: 0,
        visibility: Visibility::FragmentStage,
        read_only_storage: true,
        has_dynamic_offset: false,
        min_binding_size: None,
        count: None,
        binds_whole_buffer: true,
    }
}

impl PipelineDesc {
    /// The fixed pipeline for the given color target format. With materials it
    /// binds the material buffer and blends by alpha; without, it replaces.
    pub fn new(color_format: wgpu::TextureFormat, with_materials: bool) -> (r: PipelineDesc)
        ensures
            r == pipeline_spec(color_format, with_materials),
    {
        PipelineDesc {
            vertex_layout: vertex_layout(),
            material_binding: if with_materials { Some(material_binding()) } else { None },
            push_constant_ranges: 0,
            blend: if with_materials { Blend::AlphaBlending } else { Blend::Replace },
            color_format,
            write_all_channels: true,
            topology: Topology::TriangleList,
            strip_index_format: false,
            counter_clockwise_front: true,
            cull: Cull::BackFaces,
            polygon_fill: PolygonFill::Fill,
            depth_stencil: false,
            sample_count: 1,
            sample_mask: 0xffff_ffff_ffff_ffff,
            alpha_to_coverage: false,
        }
    }
}

} // verus!
