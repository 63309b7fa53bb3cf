use vstd::arithmetic::div_mod::lemma_fundamental_div_mod_converse;
use vstd::prelude::*;

verus! {

/// The index that ends one triangle strip and starts the next.
pub const RESTART_INDEX: u32 = 0xffff_ffff;

/// Number of vertices in one blade with `segments` segments.
pub open spec fn blade_vertex_count(segments: nat) -> nat {
    2 * segments + 1
}

/// Number of index-buffer entries taken by one blade: its vertices and one
/// restart marker.
pub open spec fn blade_index_stride(segments: nat) -> nat {
    2 * segments + 2
}

/// Length of the index buffer for `blades` blades.
pub open spec fn index_buffer_len(blades: nat, segments: nat) -> nat {
    blades * blade_index_stride(segments)
}

/// Entry `k` of the index buffer: within blade `k / stride`, position
/// `k % stride` names that blade's vertex, and the last position holds the
/// restart marker.
pub open spec fn index_entry(segments: nat, k: nat) -> u32 {
    let stride = blade_index_stride(segments);
    let blade = k / stride;
    let pos = k % stride;
    if pos == blade_vertex_count(segments) {
        RESTART_INDEX
    } else {
        (blade * blade_vertex_count(segments) + pos) as u32
    }
}

/// The index buffer fits in 32-bit indices: its length, and therefore every
/// vertex index, stays below the restart marker.
pub open spec fn index_buffer_fits(blades: nat, segments: nat) -> bool {
    index_buffer_len(blades, segments) <= u32::MAX
}

proof fn lemma_entry_at(segments: nat, blade: nat, pos: nat)
    requires
        pos < blade_index_stride(segments),
    ensures
        index_entry(segments, blade * blade_index_stride(segments) + pos) == (if pos
            == blade_vertex_count(segments) {
            RESTART_INDEX
        } else {
            (blade * blade_vertex_count(segments) + pos) as u32
        }),
{
    let stride = blade_index_stride(segments);
    let k = blade * stride + pos;
    lemma_fundamental_div_mod_converse(k as int, stride as int, blade as int, pos as int);
}

/// Builds the index buffer that draws `blades` blades of `segments`
/// segments as one triangle strip with a restart marker after each blade.
pub fn indices(blades: u32, segments: u32) -> (r: Vec<u32>)
    requires
        index_buffer_fits(blades as nat, segments as nat),
    ensures
        r@.len() == index_buffer_len(blades as nat, segments as nat),
        forall|k: int|
            0 <= k < r@.len() ==> #[trigger] r@[k] == index_entry(segments as nat, k as nat),
{
    let ghost s = segments as nat;
    let ghost stride = blade_index_stride(s);
    let mut out: Vec<u32> = Vec::new();
    if blades == 0 {
        return out;
    }
    proof {
        assert(stride <= blades as nat * stride) by (nonlinear_arith)
            requires blades > 0;
    }
    let vertices_per_blade: u32 = segments * 2 + 1;
    let mut blade: u32 = 0;
    while blade < blades
        invariant
            0 <= blade <= blades,
            blades as nat * stride <= u32::MAX,
            stride == 2 * s + 2,
            s == segments as nat,
            vertices_per_blade == 2 * s + 1,
            out@.len() == blade as nat * stride,
            forall|k: int| 0 <= k < out@.len() ==> #[trigger] out@[k] == index_entry(s, k as nat),
        decreases blades - blade,
    {
        proof {
            assert((blade as nat + 1) * stride <= blades as nat * stride) by (nonlinear_arith)
                requires blade < blades;
            assert((blade as nat + 1) * stride == blade as nat * stride + stride) by (nonlinear_arith);
            assert(blade as nat * (2 * s + 1) <= blade as nat * stride) by (nonlinear_arith)
                requires stride == 2 * s + 2;
        }
        let start: u32 = vertices_per_blade * blade;
        let mut i: u32 = 0;
        while i < vertices_per_blade
            invariant
                0 <= i <= vertices_per_blade,
                vertices_per_blade == 2 * s + 1,
                stride == 2 * s + 2,
                s == segments as nat,
                blade < blades,
                blades as nat * stride <= u32::MAX,
                (blade as nat + 1) * stride <= blades as nat * stride,
                start == blade as nat * (2 * s + 1),
                out@.len() == blade as nat * stride + i,
                forall|k: int|
                    0 <= k < out@.len() ==> #[trigger] out@[k] == index_entry(s, k as nat),
            decreases vertices_per_blade - i,
        {
            proof {
                lemma_entry_at(s, blade as nat, i as nat);
                assert(blade as nat * (2 * s + 1) + i < (blade as nat + 1) * stride) by (nonlinear_arith)
                    requires i < 2 * s + 1, stride == 2 * s + 2;
            }
            out.push(start + i);
            i = i + 1;
        }
        proof {
            lemma_entry_at(s, blade as nat, 2 * s + 1);
        }
        out.push(RESTART_INDEX);
        blade = blade + 1;
    }
    out
}

/// In an index buffer that fits 32-bit indices, entry `k` is the restart
/// marker exactly when it is the last of its blade's stride of
/// `2 * segments + 2` entries; every other entry names one of the blades'
/// vertices, the vertices of blade `b` being numbered from
/// `b * (2 * segments + 1)` on.
pub proof fn lemma_restart_markers(blades: nat, segments: nat, k: nat)
    requires
        index_buffer_fits(blades, segments),
        k < index_buffer_len(blades, segments),
    ensures
        (index_entry(segments, k) == RESTART_INDEX) <==> (k % blade_index_stride(segments)
            == blade_index_stride(segments) - 1),
        index_entry(segments, k) != RESTART_INDEX ==> index_entry(segments, k) < blades
            * blade_vertex_count(segments),
{
    let stride = blade_index_stride(segments);
    let blade = k / stride;
    let pos = k % stride;
    assert(k == blade * stride + pos && pos < stride) by (nonlinear_arith)
        requires stride > 0, blade == k / stride, pos == k % stride;
    assert(blade < blades) by (nonlinear_arith)
        requires k == blade * stride + pos, k < blades * stride, pos >= 0;
    if pos != blade_vertex_count(segments) {
        assert(blade * (2 * segments + 1) + pos < blades * (2 * segments + 1)) by (nonlinear_arith)
            requires blade < blades, pos < 2 * segments + 1;
        assert(blades * (2 * segments + 1) <= blades * stride) by (nonlinear_arith)
            requires stride == 2 * segments + 2;
    }
}

} // verus!
