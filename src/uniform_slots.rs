use vstd::prelude::*;

verus! {

/// Spare uniform slots that the entity buffer keeps beyond those in use.
pub const SPARE_UNIFORM_SLOTS: u64 = 8;

/// `value` rounded up to a multiple of `alignment`.
pub open spec fn align_up(value: nat, alignment: nat) -> nat {
    if value % alignment == 0 {
        value
    } else {
        (value + alignment - value % alignment) as nat
    }
}

/// Relies on `wgpu::util::align_to`: it returns `value` when `alignment`
/// divides it, else `value + alignment - value % alignment`.
#[verifier::external_body]
fn align_to(value: u64, alignment: u64) -> (r: u64)
    requires
        alignment > 0,
        value + alignment <= u64::MAX,
    ensures
        r == align_up(value as nat, alignment as nat),
{
    wgpu::util::align_to(value, alignment)
}

/// Where the per-entity uniforms live in the shared dynamic-offset buffer:
/// the ground plane in slot 0, the cubes after it, then the grass.
#[derive(Debug, Clone, Copy, PartialEq, Eq, Structural)]
pub struct EntityUniformLayout {
    /// Distance between slots: the uniform size rounded up to the device's
    /// offset alignment.
    pub slot_stride: u64,
    /// Bytes of the whole buffer.
    pub buffer_size: u64,
    /// Dynamic offset of the grass's slot.
    pub grass_offset: u32,
    pub cube_count: u32,
}

impl EntityUniformLayout {
    /// Slots the buffer holds: the plane, the cubes, the grass, and spares.
    pub open spec fn slot_count(cube_count: nat) -> nat {
        (SPARE_UNIFORM_SLOTS + 1 + cube_count) as nat
    }

    pub open spec fn wf(&self) -> bool {
        &&& self.slot_stride > 0
        &&& self.buffer_size == Self::slot_count(self.cube_count as nat) * self.slot_stride
        &&& self.grass_offset == (self.cube_count as nat + 1) * self.slot_stride
    }

    /// Dynamic offset of the uniforms of cube `i`.
    pub fn cube_offset(&self, i: u32) -> (r: u32)
        requires
            self.wf(),
            i < self.cube_count,
        ensures
            r == (i as nat + 1) * self.slot_stride,
            r < self.grass_offset,
    {
        proof {
            assert((i as nat + 1) * self.slot_stride < (self.cube_count as nat + 1)
                * self.slot_stride) by (nonlinear_arith)
                requires i < self.cube_count, self.slot_stride > 0;
        }
        ((i as u64 + 1) * self.slot_stride) as u32
    }
}

/// Lays out the uniforms of a plane, `cube_count` cubes and the grass,
/// each `uniform_size` bytes, at offsets aligned to `min_alignment`. Fails
/// when an offset does not fit 32 bits or the buffer size 64 bits.
pub fn entity_uniform_layout(uniform_size: u64, min_alignment: u64, cube_count: u32) -> (r:
    Option<EntityUniformLayout>)
    requires
        min_alignment > 0,
        uniform_size > 0,
    ensures
        ({
            let stride = align_up(uniform_size as nat, min_alignment as nat);
            let fits = uniform_size + min_alignment <= u64::MAX && (cube_count as nat + 1) * stride
                <= u32::MAX;
            &&& fits <==> r is Some
            &&& r matches Some(l) ==> {
                &&& l.wf()
                &&& l.slot_stride == stride
                &&& l.cube_count == cube_count
            }
        }),
{
    if uniform_size > u64::MAX - min_alignment {
        return None;
    }
    let stride = align_to(uniform_size, min_alignment);
    proof {
        assert(stride >= uniform_size);
        assert(stride < uniform_size + min_alignment);
    }
    let slots: u64 = cube_count as u64 + 1;
    if stride > u32::MAX as u64 / slots {
        proof {
            let q = u32::MAX as int / slots as int;
            let m = u32::MAX as int % slots as int;
            assert(u32::MAX as int == slots * q + m && 0 <= m < slots) by (nonlinear_arith)
                requires slots > 0, q == u32::MAX as int / slots as int, m == u32::MAX as int % slots as int;
            assert(slots * stride > u32::MAX) by (nonlinear_arith)
                requires stride > q, slots > 0, u32::MAX as int == slots * q + m, m < slots;
        }
        return None;
    }
    proof {
        let q = u32::MAX as int / slots as int;
        let m = u32::MAX as int % slots as int;
        assert(u32::MAX as int == slots * q + m && 0 <= m) by (nonlinear_arith)
            requires slots > 0, q == u32::MAX as int / slots as int, m == u32::MAX as int % slots as int;
        assert(slots * stride <= u32::MAX) by (nonlinear_arith)
            requires stride <= q, slots > 0, u32::MAX as int == slots * q + m, m >= 0;
        assert((SPARE_UNIFORM_SLOTS + slots) * stride <= 9 * (slots * stride)) by (nonlinear_arith)
            requires slots >= 1;
    }
    let grass_offset = slots * stride;
    Some(
        EntityUniformLayout {
            slot_stride: stride,
            buffer_size: (SPARE_UNIFORM_SLOTS + slots) * stride,
            grass_offset: grass_offset as u32,
            cube_count,
        },
    )
}

} // verus!
