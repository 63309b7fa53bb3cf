use crate::index_buffer::{
    blade_index_stride, blade_vertex_count, index_buffer_fits, index_buffer_len,
};
use vstd::prelude::*;

verus! {

/// Number of invocations in one workgroup of the expansion kernel.
pub const WORKGROUP_SIZE: u32 = 256;

/// Size in bytes of one generated blade vertex: position, normal and
/// texture coordinate, eight 32-bit floats.
pub const BLADE_VERTEX_BYTES: u64 = 32;

/// Vertices that `source_count` sources with `blades_per_source` blades of
/// `segments` segments produce in one frame.
pub open spec fn vertex_total(source_count: nat, blades_per_source: nat, segments: nat) -> nat {
    source_count * blades_per_source * blade_vertex_count(segments)
}

/// Workgroups needed to give each of `count` sources its own invocation.
pub open spec fn workgroups_for(count: nat) -> nat {
    ((count + WORKGROUP_SIZE - 1) / (WORKGROUP_SIZE as int)) as nat
}

/// Whether buffers for `source_count` sources with `blades_per_source`
/// blades of `segments` segments can be addressed with 32-bit indices: the
/// whole index buffer, and one blade's strip on its own.
pub open spec fn allocation_fits(source_count: nat, blades_per_source: nat, segments: nat) -> bool {
    &&& index_buffer_fits(source_count * blades_per_source, segments)
    &&& blade_index_stride(segments) <= u32::MAX
}

/// A configuration that cannot be set up or dispatched.
#[derive(Debug, Clone, Copy, PartialEq, Eq, Structural)]
pub enum ConfigError {
    /// The requested counts need more vertices or indices than 32-bit
    /// indices can address.
    CapacityOverflow,
    /// A dispatch asks for more sources than the buffers were sized for.
    SourceCountExceedsAllocation { requested: u32, allocated: u32 },
    /// A dispatch asks for another number of blades per source than the
    /// buffers were sized for.
    BladesPerSourceMismatch { requested: u32, allocated: u32 },
}

/// The fixed sizes of the per-frame output buffers.
#[derive(Debug, Clone, Copy, PartialEq, Eq, Structural)]
pub struct Allocation {
    pub source_count: u32,
    pub blades_per_source: u32,
    pub segments: u32,
    /// Vertices that the output vertex buffer holds.
    pub vertex_capacity: u32,
    /// Blades in all, one index-buffer strip each.
    pub blade_count: u32,
    /// Entries of the index buffer.
    pub index_count: u32,
}

impl Allocation {
    pub open spec fn wf(&self) -> bool {
        &&& self.blade_count == self.source_count as nat * self.blades_per_source as nat
        &&& self.vertex_capacity == vertex_total(
            self.source_count as nat,
            self.blades_per_source as nat,
            self.segments as nat,
        )
        &&& self.index_count == index_buffer_len(self.blade_count as nat, self.segments as nat)
        &&& index_buffer_fits(self.blade_count as nat, self.segments as nat)
        &&& blade_index_stride(self.segments as nat) <= u32::MAX
    }

    /// Bytes of the output vertex buffer.
    pub fn vertex_buffer_bytes(&self) -> (r: u64)
        requires
            self.wf(),
        ensures
            r == self.vertex_capacity as nat * BLADE_VERTEX_BYTES,
    {
        self.vertex_capacity as u64 * BLADE_VERTEX_BYTES
    }

    /// Checks a fill dispatch of `source_count` sources with
    /// `blades_per_source` blades each against the sizes the buffers were
    /// made with, and plans it.
    pub fn check_dispatch(&self, source_count: u32, blades_per_source: u32) -> (r: Result<
        FillDispatch,
        ConfigError,
    >)
        requires
            self.wf(),
        ensures
            source_count > self.source_count ==> r == Err::<FillDispatch, ConfigError>(
                ConfigError::SourceCountExceedsAllocation {
                    requested: source_count,
                    allocated: self.source_count,
                },
            ),
            source_count <= self.source_count && blades_per_source != self.blades_per_source
                ==> r == Err::<FillDispatch, ConfigError>(
                ConfigError::BladesPerSourceMismatch {
                    requested: blades_per_source,
                    allocated: self.blades_per_source,
                },
            ),
            source_count <= self.source_count && blades_per_source == self.blades_per_source
                ==> r == Ok::<FillDispatch, ConfigError>(
                FillDispatch {
                    source_count,
                    blades_per_source,
                    segments: self.segments,
                    vertices_per_blade: (2 * self.segments + 1) as u32,
                    vertex_capacity: self.vertex_capacity,
                    workgroups: workgroups_for(source_count as nat) as u32,
                },
            ),
            r matches Ok(d) ==> d.wf(),
    {
        if source_count > self.source_count {
            return Err(
                ConfigError::SourceCountExceedsAllocation {
                    requested: source_count,
                    allocated: self.source_count,
                },
            );
        }
        if blades_per_source != self.blades_per_source {
            return Err(
                ConfigError::BladesPerSourceMismatch {
                    requested: blades_per_source,
                    allocated: self.blades_per_source,
                },
            );
        }
        proof {
            lemma_capacity_covers(self, source_count);
        }
        let vertices_per_blade: u32 = 2 * self.segments + 1;
        Ok(
            FillDispatch {
                source_count,
                blades_per_source,
                segments: self.segments,
                vertices_per_blade,
                vertex_capacity: self.vertex_capacity,
                workgroups: workgroup_count(source_count),
            },
        )
    }
}

/// A fill dispatch that fits the buffers it writes.
#[derive(Debug, Clone, Copy, PartialEq, Eq, Structural)]
pub struct FillDispatch {
    pub source_count: u32,
    pub blades_per_source: u32,
    pub segments: u32,
    pub vertices_per_blade: u32,
    /// Vertices that the output vertex buffer holds.
    pub vertex_capacity: u32,
    /// Workgroups of the fill kernel to dispatch.
    pub workgroups: u32,
}

impl FillDispatch {
    pub open spec fn wf(&self) -> bool {
        &&& self.vertices_per_blade == blade_vertex_count(self.segments as nat)
        &&& self.workgroups == workgroups_for(self.source_count as nat)
        &&& vertex_total(
            self.source_count as nat,
            self.blades_per_source as nat,
            self.segments as nat,
        ) <= self.vertex_capacity
    }

    /// Vertices that one source point writes.
    pub open spec fn source_stride(&self) -> nat {
        self.blades_per_source as nat * self.vertices_per_blade as nat
    }

    /// Vertices that the whole dispatch writes.
    pub open spec fn total(&self) -> nat {
        vertex_total(
            self.source_count as nat,
            self.blades_per_source as nat,
            self.segments as nat,
        )
    }
}

proof fn lemma_capacity_covers(a: &Allocation, source_count: u32)
    requires
        a.wf(),
        source_count <= a.source_count,
    ensures
        vertex_total(source_count as nat, a.blades_per_source as nat, a.segments as nat)
            <= a.vertex_capacity,
        2 * a.segments + 1 <= u32::MAX,
{
    let b = a.blades_per_source as nat;
    let v = blade_vertex_count(a.segments as nat);
    assert(source_count as nat * b * v <= a.source_count as nat * b * v) by (nonlinear_arith)
        requires source_count <= a.source_count;
    if a.blade_count == 0 {
        assert(source_count as nat * b == 0) by (nonlinear_arith)
            requires source_count <= a.source_count, a.source_count as nat * b == 0;
        assert(source_count as nat * b * v == 0) by (nonlinear_arith)
            requires source_count as nat * b == 0;
    }
}

/// Workgroups that a fill dispatch over `count` sources needs: `count`
/// divided by the workgroup size, rounded up.
pub fn workgroup_count(count: u32) -> (r: u32)
    ensures
        r == workgroups_for(count as nat),
        r as nat * WORKGROUP_SIZE >= count,
        r == 0 || (r as nat - 1) * WORKGROUP_SIZE < count,
{
    let whole = count / WORKGROUP_SIZE;
    let r = if count % WORKGROUP_SIZE == 0 {
        whole
    } else {
        whole + 1
    };
    r
}

/// Sizes the output buffers for `source_count` sources with
/// `blades_per_source` blades of `segments` segments each. Fails when the
/// index buffer would not fit 32-bit indices.
pub fn allocate(source_count: u32, blades_per_source: u32, segments: u32) -> (r: Result<
    Allocation,
    ConfigError,
>)
    ensures
        allocation_fits(source_count as nat, blades_per_source as nat, segments as nat) <==> r is Ok,
        !allocation_fits(source_count as nat, blades_per_source as nat, segments as nat) ==> r == Err::<Allocation, ConfigError>(ConfigError::CapacityOverflow),
        r matches Ok(a) ==> {
            &&& a.wf()
            &&& a.source_count == source_count
            &&& a.blades_per_source == blades_per_source
            &&& a.segments == segments
        },
{
    if segments > (u32::MAX - 2) / 2 {
        return Err(ConfigError::CapacityOverflow);
    }
    proof {
        assert(source_count as nat * blades_per_source as nat <= u32::MAX as nat * u32::MAX as nat)
            by (nonlinear_arith);
    }
    let blades: u64 = source_count as u64 * blades_per_source as u64;
    let stride: u64 = segments as u64 * 2 + 2;
    let index_count = match blades.checked_mul(stride) {
        Some(n) => n,
        None => {
            return Err(ConfigError::CapacityOverflow);
        },
    };
    if index_count > u32::MAX as u64 {
        return Err(ConfigError::CapacityOverflow);
    }
    proof {
        assert(blades <= index_count) by (nonlinear_arith)
            requires index_count == blades * stride, stride >= 2;
        assert(blades * (stride - 1) <= index_count) by (nonlinear_arith)
            requires index_count == blades * stride, stride >= 2;
    }
    let vertices_per_blade: u64 = stride - 1;
    let vertex_capacity: u64 = blades * vertices_per_blade;
    Ok(
        Allocation {
            source_count,
            blades_per_source,
            segments,
            vertex_capacity: vertex_capacity as u32,
            blade_count: blades as u32,
            index_count: index_count as u32,
        },
    )
}

} // verus!
