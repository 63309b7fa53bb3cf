use crate::sizing::{vertex_total, FillDispatch, WORKGROUP_SIZE};
use vstd::arithmetic::div_mod::lemma_fundamental_div_mod_converse;
use vstd::prelude::*;

verus! {

/// Arguments of a non-indexed indirect draw, as the GPU reads them.
#[derive(Debug, Clone, Copy, PartialEq, Eq, Structural)]
pub struct DrawIndirect {
    pub vertex_count: u32,
    pub instance_count: u32,
    pub base_vertex: u32,
    pub base_instance: u32,
}

/// Arguments of an indexed indirect draw, as the GPU reads them. The
/// expansion kernels write `vertex_count`; the rest stays as created.
#[derive(Debug, Clone, Copy, PartialEq, Eq, Structural)]
pub struct DrawIndexedIndirect {
    pub vertex_count: u32,
    pub instance_count: u32,
    pub base_index: u32,
    pub vertex_offset: i32,
    pub base_instance: u32,
}

impl DrawIndexedIndirect {
    /// The record the indirect buffer is created with: nothing to draw yet,
    /// one instance.
    pub fn initial() -> (r: DrawIndexedIndirect)
        ensures
            r == (DrawIndexedIndirect {
                vertex_count: 0,
                instance_count: 1,
                base_index: 0,
                vertex_offset: 0,
                base_instance: 0,
            }),
    {
        DrawIndexedIndirect {
            vertex_count: 0,
            instance_count: 1,
            base_index: 0,
            vertex_offset: 0,
            base_instance: 0,
        }
    }
}

/// The shared state of the expansion kernels: the vertex counter and the
/// indirect draw record.
#[derive(Debug, Clone, Copy, PartialEq, Eq, Structural)]
pub struct KernelState {
    pub counter: u32,
    pub args: DrawIndexedIndirect,
}

/// The state after `init`: counter and draw count are zero, the rest of the
/// draw record is kept.
pub open spec fn after_init(s: KernelState) -> KernelState {
    KernelState { counter: 0, args: DrawIndexedIndirect { vertex_count: 0, ..s.args } }
}

/// The state after `n` vertices were counted.
pub open spec fn counted(s: KernelState, n: nat) -> KernelState {
    KernelState {
        counter: (s.counter + n) as u32,
        args: DrawIndexedIndirect { vertex_count: (s.args.vertex_count + n) as u32, ..s.args },
    }
}

/// The state after fill invocation `index` of dispatch `d`: an invocation
/// that has a source point counts that source's vertices; the others do
/// nothing.
pub open spec fn after_invocation(s: KernelState, d: FillDispatch, index: nat) -> KernelState {
    if index < d.source_count {
        counted(s, d.source_stride())
    } else {
        s
    }
}

/// The state after a whole fill dispatch.
pub open spec fn after_fill(s: KernelState, d: FillDispatch) -> KernelState {
    counted(s, d.total())
}

/// The state after `init` and then a fill dispatch.
pub open spec fn after_frame(s: KernelState, d: FillDispatch) -> KernelState {
    after_fill(after_init(s), d)
}

impl KernelState {
    /// The draw record asks for exactly the vertices counted, in one
    /// instance.
    pub open spec fn wf(&self) -> bool {
        &&& self.args.instance_count == 1
        &&& self.args.vertex_count == self.counter
    }

    /// The state the buffers are created with.
    pub fn new() -> (r: KernelState)
        ensures
            r.wf(),
            r.counter == 0,
            r.args == (DrawIndexedIndirect {
                vertex_count: 0,
                instance_count: 1,
                base_index: 0,
                vertex_offset: 0,
                base_instance: 0,
            }),
    {
        KernelState { counter: 0, args: DrawIndexedIndirect::initial() }
    }

    /// The `init` kernel: resets the counter and the draw count.
    pub fn init(&mut self)
        ensures
            *final(self) == after_init(*old(self)),
    {
        self.counter = 0;
        self.args.vertex_count = 0;
    }

    /// One invocation of the `fill` kernel. Invocations past the last
    /// source exist because the workgroup count is rounded up; they write
    /// nothing.
    pub fn fill_invocation(&mut self, d: &FillDispatch, index: u64)
        requires
            d.wf(),
            index < d.source_count ==> old(self).counter + d.source_stride() <= u32::MAX,
            index < d.source_count ==> old(self).args.vertex_count + d.source_stride() <= u32::MAX,
        ensures
            *final(self) == after_invocation(*old(self), *d, index as nat),
    {
        if index < d.source_count as u64 {
            proof {
                lemma_source_stride_bound(*d);
            }
            let stride = d.blades_per_source * d.vertices_per_blade;
            self.counter = self.counter + stride;
            self.args.vertex_count = self.args.vertex_count + stride;
        }
    }

    /// The `fill` kernel over all invocations of dispatch `d`.
    pub fn fill(&mut self, d: &FillDispatch)
        requires
            d.wf(),
            old(self).counter + d.total() <= u32::MAX,
            old(self).args.vertex_count + d.total() <= u32::MAX,
        ensures
            *final(self) == after_fill(*old(self), *d),
    {
        let ghost start = *self;
        let invocations: u64 = d.workgroups as u64 * WORKGROUP_SIZE as u64;
        proof {
            lemma_invocations_cover(*d);
            assert(0 * d.source_stride() == 0);
            assert(counted(start, 0) == start);
        }
        let mut index: u64 = 0;
        while index < invocations
            invariant
                d.wf(),
                invocations == d.workgroups as nat * WORKGROUP_SIZE,
                invocations >= d.source_count,
                index <= invocations,
                start.counter + d.total() <= u32::MAX,
                start.args.vertex_count + d.total() <= u32::MAX,
                *self == counted(
                    start,
                    (if index < d.source_count { index as nat } else { d.source_count as nat })
                        * d.source_stride(),
                ),
            decreases invocations - index,
        {
            let ghost done: nat = if index < d.source_count { index as nat } else { d.source_count as nat };
            proof {
                lemma_total_is_strides(*d);
                if index < d.source_count {
                    assert((done + 1) * d.source_stride() <= d.source_count as nat * d.source_stride())
                        by (nonlinear_arith)
                        requires done + 1 <= d.source_count;
                    assert((done + 1) * d.source_stride() == done * d.source_stride() + d.source_stride())
                        by (nonlinear_arith);
                }
            }
            self.fill_invocation(d, index);
            index = index + 1;
        }
        proof {
            lemma_total_is_strides(*d);
        }
    }

    /// One frame of the expansion stage: `init`, then the `fill` dispatch.
    pub fn run_frame(&mut self, d: &FillDispatch)
        requires
            d.wf(),
        ensures
            *final(self) == after_frame(*old(self), *d),
            final(self).counter == d.total(),
            final(self).args.vertex_count == final(self).counter,
            final(self).args.instance_count == old(self).args.instance_count,
    {
        self.init();
        self.fill(d);
    }
}

proof fn lemma_total_is_strides(d: FillDispatch)
    requires
        d.wf(),
    ensures
        d.total() == d.source_count as nat * d.source_stride(),
{
    let (n, b, v) = (d.source_count as nat, d.blades_per_source as nat, d.vertices_per_blade as nat);
    assert(n * b * v == n * (b * v)) by (nonlinear_arith);
}

proof fn lemma_source_stride_bound(d: FillDispatch)
    requires
        d.wf(),
        d.source_count > 0,
    ensures
        d.source_stride() <= d.total(),
        d.total() <= u32::MAX,
{
    lemma_total_is_strides(d);
    assert(d.source_stride() <= d.source_count as nat * d.source_stride()) by (nonlinear_arith)
        requires d.source_count > 0;
}

proof fn lemma_invocations_cover(d: FillDispatch)
    requires
        d.wf(),
    ensures
        d.workgroups as nat * WORKGROUP_SIZE >= d.source_count,
        d.workgroups as nat * WORKGROUP_SIZE <= u64::MAX,
{
    let n = d.source_count as int;
    let w = d.workgroups as int;
    assert(w == (n + 255) / 256);
    assert(w * 256 >= n && w * 256 <= n + 255) by (nonlinear_arith)
        requires w == (n + 255) / 256, n >= 0;
}

/// First vertex of the output region of source `index`: each fill
/// invocation writes its vertices from there, at an offset fixed by its
/// index alone.
pub open spec fn region_start(d: FillDispatch, index: nat) -> nat {
    index * d.source_stride()
}

/// Output slot of vertex `vertex` of blade `blade` of source `source`.
pub open spec fn vertex_slot(d: FillDispatch, source: nat, blade: nat, vertex: nat) -> nat {
    (source * d.blades_per_source as nat + blade) * d.vertices_per_blade as nat + vertex
}

/// The output region `[start, end)` of source `index`.
pub fn source_region(d: &FillDispatch, index: u32) -> (r: (u32, u32))
    requires
        d.wf(),
        index < d.source_count,
    ensures
        r.0 == region_start(*d, index as nat),
        r.1 == region_start(*d, index as nat + 1),
        r.1 <= d.total(),
        d.total() <= d.vertex_capacity,
{
    proof {
        lemma_total_is_strides(*d);
        let k = d.source_stride();
        assert((index as nat + 1) * k <= d.source_count as nat * k) by (nonlinear_arith)
            requires index < d.source_count;
        assert((index as nat + 1) * k == index as nat * k + k) by (nonlinear_arith);
        assert(d.source_stride() == d.blades_per_source as nat * d.vertices_per_blade as nat);
    }
    let stride = d.blades_per_source * d.vertices_per_blade;
    let start = index * stride;
    (start, start + stride)
}

/// Output slot of vertex `vertex` of blade `blade` of source `source`.
pub fn vertex_offset(d: &FillDispatch, source: u32, blade: u32, vertex: u32) -> (r: u32)
    requires
        d.wf(),
        source < d.source_count,
        blade < d.blades_per_source,
        vertex < d.vertices_per_blade,
    ensures
        r == vertex_slot(*d, source as nat, blade as nat, vertex as nat),
        region_start(*d, source as nat) <= r < region_start(*d, source as nat + 1),
        r < d.total(),
{
    proof {
        lemma_slot_in_region(*d, source as nat, blade as nat, vertex as nat);
        lemma_regions_disjoint(*d, source as nat, source as nat);
        let (b, v) = (d.blades_per_source as nat, d.vertices_per_blade as nat);
        let sb = source as nat * b + blade as nat;
        assert(source as nat * b <= sb);
        assert(sb <= sb * v) by (nonlinear_arith)
            requires v >= 1;
        assert(d.source_stride() == b * v);
    }
    (source * d.blades_per_source + blade) * d.vertices_per_blade + vertex
}

proof fn lemma_slot_in_region(d: FillDispatch, source: nat, blade: nat, vertex: nat)
    requires
        d.wf(),
        blade < d.blades_per_source,
        vertex < d.vertices_per_blade,
    ensures
        region_start(d, source) <= vertex_slot(d, source, blade, vertex) < region_start(
            d,
            source + 1,
        ),
        source * d.blades_per_source + blade < (source + 1) * d.blades_per_source,
{
    let (b, v) = (d.blades_per_source as nat, d.vertices_per_blade as nat);
    assert(source * (b * v) <= (source * b + blade) * v + vertex) by (nonlinear_arith);
    assert((source * b + blade) * v + vertex < (source + 1) * (b * v)) by (nonlinear_arith)
        requires blade < b, vertex < v;
    assert(source * b + blade < (source + 1) * b) by (nonlinear_arith)
        requires blade < b;
}

/// Fill invocations write disjoint regions of the output buffer, in the
/// order of their sources, and all of them lie within the buffer's
/// capacity.
pub proof fn lemma_regions_disjoint(d: FillDispatch, i: nat, j: nat)
    requires
        d.wf(),
        i <= j < d.source_count,
    ensures
        i < j ==> region_start(d, i + 1) <= region_start(d, j),
        region_start(d, j + 1) <= region_start(d, d.source_count as nat),
        region_start(d, d.source_count as nat) == d.total(),
        d.total() <= d.vertex_capacity,
{
    let k = d.source_stride();
    lemma_total_is_strides(d);
    assert(i < j ==> (i + 1) * k <= j * k) by (nonlinear_arith);
    assert((j + 1) * k <= d.source_count as nat * k) by (nonlinear_arith)
        requires j < d.source_count;
}

/// No two vertices of one fill dispatch share an output slot.
pub proof fn lemma_vertex_slots_distinct(
    d: FillDispatch,
    s1: nat,
    b1: nat,
    v1: nat,
    s2: nat,
    b2: nat,
    v2: nat,
)
    requires
        d.wf(),
        b1 < d.blades_per_source,
        b2 < d.blades_per_source,
        v1 < d.vertices_per_blade,
        v2 < d.vertices_per_blade,
        vertex_slot(d, s1, b1, v1) == vertex_slot(d, s2, b2, v2),
    ensures
        s1 == s2 && b1 == b2 && v1 == v2,
{
    let (b, v) = (d.blades_per_source as int, d.vertices_per_blade as int);
    let slot = vertex_slot(d, s1, b1, v1) as int;
    lemma_fundamental_div_mod_converse(slot, v, (s1 * b + b1) as int, v1 as int);
    lemma_fundamental_div_mod_converse(slot, v, (s2 * b + b2) as int, v2 as int);
    let blade = (s1 * b + b1) as int;
    lemma_fundamental_div_mod_converse(blade, b, s1 as int, b1 as int);
    lemma_fundamental_div_mod_converse(blade, b, s2 as int, b2 as int);
}

/// After `init` and a fill dispatch, the counter holds exactly the
/// vertices of every blade of every source, which the output buffer has
/// room for.
pub proof fn lemma_frame_vertex_count(s: KernelState, d: FillDispatch)
    requires
        d.wf(),
    ensures
        after_frame(s, d).counter == vertex_total(
            d.source_count as nat,
            d.blades_per_source as nat,
            d.segments as nat,
        ),
        after_frame(s, d).counter <= d.vertex_capacity,
{
}

/// Running `init` twice gives the state that running it once gives.
pub proof fn lemma_init_idempotent(s: KernelState)
    ensures
        after_init(after_init(s)) == after_init(s),
{
}

/// After a fill dispatch that follows `init`, the draw record asks for
/// exactly the vertices counted, in one instance.
pub proof fn lemma_frame_draw_record(s: KernelState, d: FillDispatch)
    requires
        s.wf(),
        d.wf(),
    ensures
        after_frame(s, d).wf(),
        after_frame(s, d).args.vertex_count == after_frame(s, d).counter,
        after_frame(s, d).args.instance_count == 1,
{
}

} // verus!
