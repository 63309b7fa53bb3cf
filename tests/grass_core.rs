use grass_gpu::index_buffer::{indices, RESTART_INDEX};
use grass_gpu::kernel::{source_region, vertex_offset, DrawIndexedIndirect, KernelState};
use grass_gpu::sizing::{allocate, workgroup_count, ConfigError, BLADE_VERTEX_BYTES};

#[test]
fn frame_counts_every_vertex() {
    let alloc = allocate(10, 3, 2).unwrap();
    let plan = alloc.check_dispatch(10, 3).unwrap();
    let mut state = KernelState::new();
    state.run_frame(&plan);
    assert_eq!(state.counter, 10 * 3 * 5);
    assert!(state.counter <= alloc.vertex_capacity);
}

#[test]
fn frame_count_with_no_sources() {
    let alloc = allocate(0, 5, 5).unwrap();
    let plan = alloc.check_dispatch(0, 5).unwrap();
    assert_eq!(plan.workgroups, 0);
    let mut state = KernelState::new();
    state.run_frame(&plan);
    assert_eq!(state.counter, 0);
    assert_eq!(state.args.vertex_count, 0);
}

#[test]
fn frame_with_fewer_sources_than_allocated() {
    let alloc = allocate(300, 2, 1).unwrap();
    let plan = alloc.check_dispatch(257, 2).unwrap();
    assert_eq!(plan.workgroups, 2);
    let mut state = KernelState::new();
    state.run_frame(&plan);
    assert_eq!(state.counter, 257 * 2 * 3);
    assert!(state.counter <= alloc.vertex_capacity);
}

#[test]
fn init_twice_equals_init_once() {
    let alloc = allocate(4, 1, 1).unwrap();
    let plan = alloc.check_dispatch(4, 1).unwrap();
    let mut once = KernelState::new();
    once.run_frame(&plan);
    let mut twice = once;
    once.init();
    twice.init();
    twice.init();
    assert_eq!(once, twice);
    assert_eq!(once.counter, 0);
    assert_eq!(once.args.vertex_count, 0);
    assert_eq!(once.args.instance_count, 1);
}

#[test]
fn fill_without_init_accumulates() {
    let alloc = allocate(4, 1, 1).unwrap();
    let plan = alloc.check_dispatch(4, 1).unwrap();
    let mut state = KernelState::new();
    state.fill(&plan);
    state.fill(&plan);
    assert_eq!(state.counter, 24);
    state.run_frame(&plan);
    assert_eq!(state.counter, 12);
}

#[test]
fn masked_invocations_write_nothing() {
    let alloc = allocate(4, 1, 1).unwrap();
    let plan = alloc.check_dispatch(4, 1).unwrap();
    let mut state = KernelState::new();
    state.fill_invocation(&plan, 4);
    state.fill_invocation(&plan, 255);
    assert_eq!(state.counter, 0);
    state.fill_invocation(&plan, 3);
    assert_eq!(state.counter, 3);
}

#[test]
fn indirect_record_matches_counter() {
    let alloc = allocate(600, 5, 5).unwrap();
    let plan = alloc.check_dispatch(600, 5).unwrap();
    let mut state = KernelState::new();
    state.run_frame(&plan);
    assert_eq!(state.args.vertex_count, state.counter);
    assert_eq!(state.args.instance_count, 1);
    assert_eq!(state.args.base_index, 0);
    assert_eq!(state.args.vertex_offset, 0);
    assert_eq!(state.args.base_instance, 0);
}

#[test]
fn initial_indirect_record() {
    let r = DrawIndexedIndirect::initial();
    assert_eq!(r.vertex_count, 0);
    assert_eq!(r.instance_count, 1);
}

#[test]
fn index_buffer_layout() {
    let blades = 7u32;
    let segments = 3u32;
    let list = indices(blades, segments);
    assert_eq!(list.len(), (blades * (2 * segments + 2)) as usize);
    let stride = (2 * segments + 2) as usize;
    for (k, v) in list.iter().enumerate() {
        if k % stride == stride - 1 {
            assert_eq!(*v, u32::MAX);
        } else {
            let blade = (k / stride) as u32;
            assert_eq!(*v, blade * (2 * segments + 1) + (k % stride) as u32);
        }
    }
}

#[test]
fn index_buffer_empty() {
    assert!(indices(0, 5).is_empty());
    assert!(indices(0, u32::MAX).is_empty());
}

#[test]
fn index_buffer_zero_segments() {
    assert_eq!(indices(3, 0), vec![0, RESTART_INDEX, 1, RESTART_INDEX, 2, RESTART_INDEX]);
}

#[test]
fn two_by_two_grid_scenario() {
    let alloc = allocate(4, 1, 1).unwrap();
    assert_eq!(alloc.vertex_capacity, 4 * 3);
    assert_eq!(alloc.blade_count, 4);
    let plan = alloc.check_dispatch(4, 1).unwrap();
    assert_eq!(plan.vertices_per_blade, 3);
    assert_eq!(plan.workgroups, 1);
    let mut state = KernelState::new();
    state.run_frame(&plan);
    assert_eq!(state.counter, 12);
    assert_eq!(state.args.vertex_count, 12);
    let one = indices(1, 1);
    assert_eq!(one.len(), 4);
    assert_eq!(one, vec![0, 1, 2, RESTART_INDEX]);
    let all = indices(alloc.blade_count, 1);
    assert_eq!(all.len(), 16);
    assert_eq!(all[3], RESTART_INDEX);
    assert_eq!(all[4], 3);
    assert_eq!(all[15], RESTART_INDEX);
}

#[test]
fn capacity_scenario() {
    let alloc = allocate(100, 5, 5).unwrap();
    assert_eq!(alloc.vertex_capacity, 5500);
    assert_eq!(alloc.blade_count, 500);
    assert_eq!(alloc.index_count, 500 * 12);
    assert_eq!(alloc.vertex_buffer_bytes(), 5500 * BLADE_VERTEX_BYTES);
    assert_eq!(
        alloc.check_dispatch(101, 5),
        Err(ConfigError::SourceCountExceedsAllocation { requested: 101, allocated: 100 })
    );
    assert!(alloc.check_dispatch(100, 5).is_ok());
}

#[test]
fn blades_mismatch_is_rejected() {
    let alloc = allocate(100, 5, 5).unwrap();
    assert_eq!(
        alloc.check_dispatch(50, 6),
        Err(ConfigError::BladesPerSourceMismatch { requested: 6, allocated: 5 })
    );
}

#[test]
fn capacity_overflow_is_rejected() {
    assert_eq!(allocate(u32::MAX, 2, 0), Err(ConfigError::CapacityOverflow));
    assert_eq!(allocate(1, 1, u32::MAX / 2), Err(ConfigError::CapacityOverflow));
    assert_eq!(allocate(65536, 65536, 1), Err(ConfigError::CapacityOverflow));
    assert_eq!(allocate(0, 1, u32::MAX), Err(ConfigError::CapacityOverflow));
    let largest = allocate(1, 1, (u32::MAX - 3) / 2).unwrap();
    assert_eq!(largest.index_count, u32::MAX - 1);
}

#[test]
fn workgroups_round_up() {
    assert_eq!(workgroup_count(0), 0);
    assert_eq!(workgroup_count(1), 1);
    assert_eq!(workgroup_count(256), 1);
    assert_eq!(workgroup_count(257), 2);
    assert_eq!(workgroup_count(512), 2);
    assert_eq!(workgroup_count(40401), 158);
    assert_eq!(workgroup_count(u32::MAX), 16777216);
}

#[test]
fn regions_are_disjoint_and_in_bounds() {
    let alloc = allocate(9, 2, 2).unwrap();
    let plan = alloc.check_dispatch(9, 2).unwrap();
    let mut seen = vec![false; alloc.vertex_capacity as usize];
    let mut previous_end = 0;
    for s in 0..9 {
        let (start, end) = source_region(&plan, s);
        assert_eq!(start, previous_end);
        assert_eq!(end - start, 10);
        previous_end = end;
        for b in 0..2 {
            for v in 0..5 {
                let slot = vertex_offset(&plan, s, b, v);
                assert!(start <= slot && slot < end);
                assert!(!seen[slot as usize]);
                seen[slot as usize] = true;
            }
        }
    }
    assert_eq!(previous_end, alloc.vertex_capacity);
    assert!(seen.iter().all(|x| *x));
}
