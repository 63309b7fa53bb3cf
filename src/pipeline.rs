use vstd::prelude::*;

verus! {

/// Size in bytes of the per-frame parameter record: time, source count,
/// blades per source, blade radius, lean and curve, wind speed and
/// strength, each four bytes.
pub const PARAMS_BYTES: u64 = 32;

/// Size in bytes of an indexed indirect draw record: five 32-bit fields.
pub const DRAW_INDEXED_INDIRECT_BYTES: u64 = 20;

/// How a compute binding's buffer is accessed.
#[derive(Debug, Clone, Copy, PartialEq, Eq, Structural)]
pub enum BufferAccess {
    Uniform,
    StorageReadOnly,
    StorageReadWrite,
}

/// What a compute binding holds.
#[derive(Debug, Clone, Copy, PartialEq, Eq, Structural)]
pub enum GrassResource {
    Params,
    SourceVertices,
    BladeVertices,
    VertexCounter,
    IndirectArgs,
}

/// One entry of the binding set shared by the `init` and `fill` kernels.
#[derive(Debug, Clone, Copy, PartialEq, Eq, Structural)]
pub struct ComputeBinding {
    pub binding: u32,
    pub resource: GrassResource,
    pub access: BufferAccess,
    /// Smallest buffer size the binding accepts, where it asks for one.
    pub min_size: Option<u64>,
}

/// Entry `i` of the compute binding set.
pub open spec fn compute_binding_spec(i: int) -> ComputeBinding {
    if i == 0 {
        ComputeBinding {
            binding: 0,
            resource: GrassResource::Params,
            access: BufferAccess::Uniform,
            min_size: Some(PARAMS_BYTES),
        }
    } else if i == 1 {
        ComputeBinding {
            binding: 1,
            resource: GrassResource::SourceVertices,
            access: BufferAccess::StorageReadOnly,
            min_size: None,
        }
    } else if i == 2 {
        ComputeBinding {
            binding: 2,
            resource: GrassResource::BladeVertices,
            access: BufferAccess::StorageReadWrite,
            min_size: None,
        }
    } else if i == 3 {
        ComputeBinding {
            binding: 3,
            resource: GrassResource::VertexCounter,
            access: BufferAccess::StorageReadWrite,
            min_size: None,
        }
    } else {
        ComputeBinding {
            binding: 4,
            resource: GrassResource::IndirectArgs,
            access: BufferAccess::StorageReadWrite,
            min_size: Some(DRAW_INDEXED_INDIRECT_BYTES),
        }
    }
}

/// The binding set of the expansion kernels: parameters, read-only
/// sources, then the three buffers the kernels write.
pub fn compute_bindings() -> (r: Vec<ComputeBinding>)
    ensures
        r@.len() == 5,
        forall|i: int| 0 <= i < 5 ==> #[trigger] r@[i] == compute_binding_spec(i),
{
    let mut r: Vec<ComputeBinding> = Vec::new();
    r.push(
        ComputeBinding {
            binding: 0,
            resource: GrassResource::Params,
            access: BufferAccess::Uniform,
            min_size: Some(PARAMS_BYTES),
        },
    );
    r.push(
        ComputeBinding {
            binding: 1,
            resource: GrassResource::SourceVertices,
            access: BufferAccess::StorageReadOnly,
            min_size: None,
        },
    );
    r.push(
        ComputeBinding {
            binding: 2,
            resource: GrassResource::BladeVertices,
            access: BufferAccess::StorageReadWrite,
            min_size: None,
        },
    );
    r.push(
        ComputeBinding {
            binding: 3,
            resource: GrassResource::VertexCounter,
            access: BufferAccess::StorageReadWrite,
            min_size: None,
        },
    );
    r.push(
        ComputeBinding {
            binding: 4,
            resource: GrassResource::IndirectArgs,
            access: BufferAccess::StorageReadWrite,
            min_size: Some(DRAW_INDEXED_INDIRECT_BYTES),
        },
    );
    r
}

/// Format of one attribute of a blade vertex.
#[derive(Debug, Clone, Copy, PartialEq, Eq, Structural)]
pub enum AttributeFormat {
    Float32x2,
    Float32x3,
}

/// Size in bytes of an attribute of format `f`.
pub open spec fn format_bytes(f: AttributeFormat) -> nat {
    match f {
        AttributeFormat::Float32x2 => 8,
        AttributeFormat::Float32x3 => 12,
    }
}

/// One attribute of the blade vertex layout.
#[derive(Debug, Clone, Copy, PartialEq, Eq, Structural)]
pub struct VertexAttribute {
    pub location: u32,
    pub format: AttributeFormat,
    pub offset: u64,
}

fn attribute_bytes(f: AttributeFormat) -> (r: u64)
    ensures
        r == format_bytes(f),
{
    match f {
        AttributeFormat::Float32x2 => 8,
        AttributeFormat::Float32x3 => 12,
    }
}

/// Formats of the blade vertex's attributes, in order: position, normal,
/// texture coordinate.
pub open spec fn blade_formats() -> Seq<AttributeFormat> {
    seq![AttributeFormat::Float32x3, AttributeFormat::Float32x3, AttributeFormat::Float32x2]
}

/// Offset of attribute `i`: the sizes of the attributes before it.
pub open spec fn attribute_offset(formats: Seq<AttributeFormat>, i: int) -> nat
    decreases i,
{
    if i <= 0 {
        0
    } else {
        attribute_offset(formats, i - 1) + format_bytes(formats[i - 1])
    }
}

/// The vertex layout of generated blade vertices: attributes packed one
/// after another at locations 0, 1 and 2; the returned stride is the size
/// of the three together.
pub fn blade_vertex_layout() -> (r: (u64, Vec<VertexAttribute>))
    ensures
        r.1@.len() == 3,
        forall|i: int|
            0 <= i < 3 ==> {
                &&& (#[trigger] r.1@[i]).location == i
                &&& r.1@[i].format == blade_formats()[i]
                &&& r.1@[i].offset == attribute_offset(blade_formats(), i)
            },
        r.0 == attribute_offset(blade_formats(), 3),
        r.0 == 32,
{
    let formats = [AttributeFormat::Float32x3, AttributeFormat::Float32x3, AttributeFormat::Float32x2];
    let mut attributes: Vec<VertexAttribute> = Vec::new();
    let mut offset: u64 = 0;
    let mut i: usize = 0;
    proof {
        reveal_with_fuel(attribute_offset, 4);
    }
    while i < 3
        invariant
            0 <= i <= 3,
            formats@ == blade_formats(),
            offset == attribute_offset(blade_formats(), i as int),
            offset <= 12 * i,
            attributes@.len() == i,
            forall|j: int|
                0 <= j < i ==> {
                    &&& (#[trigger] attributes@[j]).location == j
                    &&& attributes@[j].format == blade_formats()[j]
                    &&& attributes@[j].offset == attribute_offset(blade_formats(), j)
                },
        decreases 3 - i,
    {
        let format = formats[i];
        assert(format == blade_formats()[i as int]);
        attributes.push(VertexAttribute { location: i as u32, format, offset });
        assert(attributes@[i as int].location == i);
        offset = offset + attribute_bytes(format);
        assert(attribute_offset(blade_formats(), i + 1) == offset);
        i = i + 1;
    }
    proof {
        reveal_with_fuel(attribute_offset, 4);
    }
    (offset, attributes)
}

/// The two render passes that draw grass.
#[derive(Debug, Clone, Copy, PartialEq, Eq, Structural)]
pub enum GrassPass {
    /// Depth only, into the shadow map, seen from the light.
    Bake,
    /// Color into the forward target, seen from the camera.
    Draw,
}

/// Depth comparison of a pass.
#[derive(Debug, Clone, Copy, PartialEq, Eq, Structural)]
pub enum DepthCompare {
    Less,
    LessEqual,
}

/// Depth target of a pass.
#[derive(Debug, Clone, Copy, PartialEq, Eq, Structural)]
pub enum DepthTarget {
    ShadowMap,
    SceneDepth,
}

/// Globals bind group layout that a pass binds at group 0, shared with the
/// static geometry's pipeline.
#[derive(Debug, Clone, Copy, PartialEq, Eq, Structural)]
pub enum GlobalsLayout {
    Shadow,
    Forward,
}

/// The fixed-function state of a grass render pipeline. Both passes draw
/// triangle strips with 32-bit indices and restart markers, counter
/// clockwise front faces, and write depth.
#[derive(Debug, Clone, Copy, PartialEq, Eq, Structural)]
pub struct RasterState {
    pub globals: GlobalsLayout,
    pub depth_target: DepthTarget,
    pub depth_compare: DepthCompare,
    pub cull_back_faces: bool,
    pub unclipped_depth: bool,
    /// Constant depth bias, in units of the depth format.
    pub depth_bias_constant: i32,
    /// Whether the pass has a fragment stage writing color.
    pub writes_color: bool,
    pub sample_count: u32,
}

/// The state of pass `pass` for a color target of `sample_count` samples,
/// on a device that does or does not support unclipped depth.
pub open spec fn raster_state_spec(
    pass: GrassPass,
    sample_count: u32,
    depth_clip_control: bool,
) -> RasterState {
    match pass {
        GrassPass::Bake => RasterState {
            globals: GlobalsLayout::Shadow,
            depth_target: DepthTarget::ShadowMap,
            depth_compare: DepthCompare::LessEqual,
            cull_back_faces: true,
            unclipped_depth: depth_clip_control,
            depth_bias_constant: 2,
            writes_color: false,
            sample_count: 1,
        },
        GrassPass::Draw => RasterState {
            globals: GlobalsLayout::Forward,
            depth_target: DepthTarget::SceneDepth,
            depth_compare: DepthCompare::Less,
            cull_back_faces: false,
            unclipped_depth: false,
            depth_bias_constant: 0,
            writes_color: true,
            sample_count,
        },
    }
}

/// The fixed-function state of pass `pass`. The shadow bake culls back
/// faces, biases depth against self-shadowing and leaves depth unclipped
/// where the device allows it; the forward draw shows both sides of the
/// thin blades and renders at the target's sample count.
pub fn raster_state(pass: GrassPass, sample_count: u32, depth_clip_control: bool) -> (r:
    RasterState)
    ensures
        r == raster_state_spec(pass, sample_count, depth_clip_control),
{
    match pass {
        GrassPass::Bake => RasterState {
            globals: GlobalsLayout::Shadow,
            depth_target: DepthTarget::ShadowMap,
            depth_compare: DepthCompare::LessEqual,
            cull_back_faces: true,
            unclipped_depth: depth_clip_control,
            depth_bias_constant: 2,
            writes_color: false,
            sample_count: 1,
        },
        GrassPass::Draw => RasterState {
            globals: GlobalsLayout::Forward,
            depth_target: DepthTarget::SceneDepth,
            depth_compare: DepthCompare::Less,
            cull_back_faces: false,
            unclipped_depth: false,
            depth_bias_constant: 0,
            writes_color: true,
            sample_count,
        },
    }
}

} // verus!
