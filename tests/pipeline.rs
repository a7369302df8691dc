use wgpu_scene::geometry::IndexFormat;
use wgpu_scene::pass::{MeshDraw, PassOptions, PipelineKind, RenderCommand, plan_pass};
use wgpu_scene::pipeline::{BindGroupKind, DepthCompare, PipelineDesc, Topology, VertexKind};

#[test]
fn main_pipeline_layout_follows_options() {
    let all = PassOptions { light_pass: true, lighting: true, instanced: true };
    let p = PipelineDesc::main(all, true);
    assert_eq!(p.kind, PipelineKind::Main);
    assert_eq!(p.bind_groups, vec![BindGroupKind::Material, BindGroupKind::Camera, BindGroupKind::Light]);
    assert_eq!(p.vertex_buffers, vec![VertexKind::Model, VertexKind::Instance]);
    assert_eq!(p.depth_compare, Some(DepthCompare::Less));
    let bare = PassOptions { light_pass: false, lighting: false, instanced: false };
    let q = PipelineDesc::main(bare, false);
    assert_eq!(q.bind_groups, vec![BindGroupKind::Material, BindGroupKind::Camera]);
    assert_eq!(q.vertex_buffers, vec![VertexKind::Model]);
    assert_eq!(q.depth_compare, None);
}

#[test]
fn light_pipeline_is_independent() {
    let p = PipelineDesc::light(true);
    assert_eq!(p.kind, PipelineKind::Light);
    assert_eq!(p.bind_groups, vec![BindGroupKind::Camera, BindGroupKind::Light]);
    assert_eq!(p.vertex_buffers, vec![VertexKind::Model]);
    assert_eq!(p.topology, Topology::TriangleList);
    assert!(p.cull_back_faces && p.front_face_ccw && p.blend_replace);
    assert_eq!(p.sample_count, 1);
}

#[test]
fn planned_bindings_match_the_bound_pipeline() {
    let meshes = vec![
        MeshDraw { index_count: 3, index_format: IndexFormat::Uint16, material: 1 },
        MeshDraw { index_count: 6, index_format: IndexFormat::Uint32, material: 0 },
    ];
    for bits in 0..8u32 {
        let opts = PassOptions { light_pass: bits & 1 != 0, lighting: bits & 2 != 0, instanced: bits & 4 != 0 };
        let main = PipelineDesc::main(opts, true);
        let light = PipelineDesc::light(true);
        let mut current: Option<&PipelineDesc> = None;
        for c in plan_pass(&meshes, opts, 9) {
            match c {
                RenderCommand::SetPipeline(PipelineKind::Main) => current = Some(&main),
                RenderCommand::SetPipeline(PipelineKind::Light) => current = Some(&light),
                RenderCommand::SetBindGroup { slot, .. } => {
                    assert!((slot as usize) < current.unwrap().bind_groups.len());
                }
                RenderCommand::SetVertexBuffer { slot, .. } => {
                    assert!((slot as usize) < current.unwrap().vertex_buffers.len());
                }
                _ => assert!(current.is_some()),
            }
        }
    }
}
