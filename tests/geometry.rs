use grass_gpu::frame::{plan_frame, FrameStep};
use grass_gpu::mesh::{
    create_cube, create_quad_indices, create_quad_xy, create_quad_xz, create_quad_yz,
    create_terrain, vertex,
};
use grass_gpu::pipeline::{
    blade_vertex_layout, compute_bindings, raster_state, AttributeFormat, BufferAccess,
    DepthCompare, GlobalsLayout, GrassPass, GrassResource,
};
use grass_gpu::pipeline_key::{GrassPipelineKey, OutlinePipelineKey};
use grass_gpu::quadtree::children;
use grass_gpu::source_grid::{create_source, GridPoint};
use grass_gpu::uniform_slots::entity_uniform_layout;

#[test]
fn source_grid_layout() {
    let pts = create_source(2, 1);
    assert_eq!(pts.len(), 5 * 3);
    assert_eq!(pts[0], GridPoint { x: -2, z: -1 });
    assert_eq!(pts[4], GridPoint { x: 2, z: -1 });
    assert_eq!(pts[7], GridPoint { x: 0, z: 0 });
    assert_eq!(pts[14], GridPoint { x: 2, z: 1 });
    assert_eq!(create_source(0, 0), vec![GridPoint { x: 0, z: 0 }]);
    assert_eq!(create_source(100, 100).len(), 201 * 201);
}

#[test]
fn vertex_pads_position_and_normal() {
    let v = vertex([1, -2, 3], [0, 1, 0]);
    assert_eq!(v.pos, [1, -2, 3, 1]);
    assert_eq!(v.normal, [0, 1, 0, 0]);
}

#[test]
fn quads() {
    assert_eq!(create_quad_indices(), vec![0, 1, 2, 2, 1, 3]);
    assert_eq!(
        create_quad_xz(3, 5),
        vec![[3, 0, -5, 1], [3, 0, 5, 1], [-3, 0, -5, 1], [-3, 0, 5, 1]]
    );
    assert_eq!(
        create_quad_xy(3, 5),
        vec![[3, -5, 0, 1], [3, 5, 0, 1], [-3, -5, 0, 1], [-3, 5, 0, 1]]
    );
    assert_eq!(
        create_quad_yz(3, 5),
        vec![[0, 3, -5, 1], [0, 3, 5, 1], [0, -3, -5, 1], [0, -3, 5, 1]]
    );
}

#[test]
fn cube_matches_its_faces() {
    let (v, i) = create_cube();
    assert_eq!(v.len(), 24);
    assert_eq!(i.len(), 36);
    assert_eq!(v[0].pos, [-1, -1, 1, 1]);
    assert_eq!(v[4].pos, [-1, 1, -1, 1]);
    assert_eq!(v[13].pos, [-1, 1, 1, 1]);
    assert_eq!(v[16].pos, [1, 1, -1, 1]);
    assert_eq!(v[23].pos, [1, -1, -1, 1]);
    assert_eq!(v[8].normal, [1, 0, 0, 0]);
    assert_eq!(v[22].normal, [0, -1, 0, 0]);
    assert_eq!(&i[0..6], &[0, 1, 2, 2, 3, 0]);
    assert_eq!(&i[30..36], &[20, 21, 22, 22, 23, 20]);
    for (k, vert) in v.iter().enumerate() {
        let n = vert.normal;
        let p = vert.pos;
        let dot = p[0] as i32 * n[0] as i32 + p[1] as i32 * n[1] as i32 + p[2] as i32 * n[2] as i32;
        assert_eq!(dot, 1, "vertex {k} lies on its face");
    }
}

#[test]
fn terrain_grid() {
    let (v, i) = create_terrain(1, 2);
    assert_eq!(v.len(), 3 * 5);
    assert_eq!(v[0].pos, [-1, 0, -2, 1]);
    assert_eq!(v[14].pos, [1, 0, 2, 1]);
    assert_eq!(v[5].normal, [0, 1, 0, 0]);
    assert_eq!(i.len(), 6 * 2 * 4);
    assert_eq!(&i[0..6], &[3, 4, 0, 4, 1, 0]);
    assert_eq!(&i[6..12], &[4, 5, 1, 5, 2, 1]);
    assert_eq!(&i[12..18], &[6, 7, 3, 7, 4, 3]);
    let (v0, i0) = create_terrain(0, 0);
    assert_eq!(v0.len(), 1);
    assert!(i0.is_empty());
    let (vmax, imax) = create_terrain(63, 63);
    assert_eq!(vmax.len(), 127 * 127);
    assert_eq!(*imax.iter().max().unwrap() as usize, 127 * 127 - 1);
}

#[test]
fn quadtree_children() {
    assert_eq!(children(0), [1, 2, 3, 4]);
    assert_eq!(children(2), [9, 10, 11, 12]);
}

#[test]
fn pipeline_keys_round_trip() {
    for s in 1..=64u32 {
        assert_eq!(GrassPipelineKey::from_msaa_samples(s).msaa_samples(), s);
        assert_eq!(OutlinePipelineKey::from_msaa_samples(s).msaa_samples(), s);
    }
    assert_eq!(GrassPipelineKey::from_msaa_samples(1).bits, 0);
    assert_eq!(GrassPipelineKey::from_msaa_samples(4).bits, 3 << 26);
    assert_eq!(GrassPipelineKey::from_msaa_samples(65).msaa_samples(), 1);
    assert_eq!(OutlinePipelineKey { bits: u32::MAX }.msaa_samples(), 64);
}

#[test]
fn compute_binding_set() {
    let b = compute_bindings();
    assert_eq!(b.len(), 5);
    for (k, e) in b.iter().enumerate() {
        assert_eq!(e.binding as usize, k);
    }
    assert_eq!(b[0].resource, GrassResource::Params);
    assert_eq!(b[0].access, BufferAccess::Uniform);
    assert_eq!(b[0].min_size, Some(32));
    assert_eq!(b[1].access, BufferAccess::StorageReadOnly);
    assert_eq!(b[4].resource, GrassResource::IndirectArgs);
    assert_eq!(b[4].min_size, Some(20));
}

#[test]
fn blade_vertex_attributes() {
    let (stride, attrs) = blade_vertex_layout();
    assert_eq!(stride, 32);
    assert_eq!(attrs.len(), 3);
    assert_eq!((attrs[0].offset, attrs[1].offset, attrs[2].offset), (0, 12, 24));
    assert_eq!(attrs[2].format, AttributeFormat::Float32x2);
    assert_eq!(attrs[1].location, 1);
}

#[test]
fn bake_and_draw_states() {
    let bake = raster_state(GrassPass::Bake, 4, true);
    assert!(bake.cull_back_faces);
    assert!(bake.unclipped_depth);
    assert!(!bake.writes_color);
    assert_eq!(bake.sample_count, 1);
    assert_eq!(bake.depth_bias_constant, 2);
    assert_eq!(bake.depth_compare, DepthCompare::LessEqual);
    assert_eq!(bake.globals, GlobalsLayout::Shadow);
    assert!(!raster_state(GrassPass::Bake, 4, false).unclipped_depth);
    let draw = raster_state(GrassPass::Draw, 4, true);
    assert!(!draw.cull_back_faces);
    assert!(draw.writes_color);
    assert_eq!(draw.sample_count, 4);
    assert_eq!(draw.depth_compare, DepthCompare::Less);
    assert_eq!(draw.globals, GlobalsLayout::Forward);
}

#[test]
fn uniform_slots_are_aligned() {
    let l = entity_uniform_layout(80, 256, 4).unwrap();
    assert_eq!(l.slot_stride, 256);
    assert_eq!(l.grass_offset, 5 * 256);
    assert_eq!(l.buffer_size, 13 * 256);
    assert_eq!(l.cube_offset(0), 256);
    assert_eq!(l.cube_offset(3), 4 * 256);
    let exact = entity_uniform_layout(512, 256, 0).unwrap();
    assert_eq!(exact.slot_stride, 512);
    assert_eq!(entity_uniform_layout(80, 256, u32::MAX), None);
    assert_eq!(entity_uniform_layout(u64::MAX, 256, 1), None);
}

#[test]
fn frame_plans() {
    let p = plan_frame(2, false, true, true);
    assert_eq!(
        p,
        vec![
            FrameStep::ShadowPass { light: 0, grass: false },
            FrameStep::ShadowPass { light: 1, grass: false },
            FrameStep::GrassDispatch,
            FrameStep::ForwardPass { grass: true },
            FrameStep::Postprocess,
        ]
    );
    let q = plan_frame(1, true, true, false);
    assert_eq!(
        q,
        vec![
            FrameStep::GrassDispatch,
            FrameStep::ShadowPass { light: 0, grass: true },
            FrameStep::ForwardPass { grass: true },
        ]
    );
    assert_eq!(plan_frame(0, false, false, false).len(), 2);
}
