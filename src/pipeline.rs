//! The pipeline set: which bind groups and vertex buffers each pipeline's
//! layout expects, slot by slot, and its fixed-function state.

use vstd::prelude::*;
use crate::pass::{
    BindGroupRef, PassOptions, PipelineKind, RenderCommand, VertexBufferRef, light_commands,
    light_mesh_commands, main_commands, main_mesh_commands, pass_commands, MeshDraw,
};

verus! {

/// The kind of resource a bind-group slot takes.
#[derive(Clone, Copy, Debug, PartialEq, Eq, Structural)]
pub enum BindGroupKind {
    /// Diffuse and normal textures with their samplers.
    Material,
    /// The camera uniform.
    Camera,
    /// The light uniform.
    Light,
}

/// The kind of data a vertex-buffer slot takes.
#[derive(Clone, Copy, Debug, PartialEq, Eq, Structural)]
pub enum VertexKind {
    /// Model vertices, stepped per vertex.
    Model,
    /// Model matrices, stepped per instance.
    Instance,
}

pub open spec fn bind_kind(g: BindGroupRef) -> BindGroupKind {
    match g {
        BindGroupRef::Material(_) => BindGroupKind::Material,
        BindGroupRef::Camera => BindGroupKind::Camera,
        BindGroupRef::Light => BindGroupKind::Light,
    }
}

pub open spec fn vertex_kind(b: VertexBufferRef) -> VertexKind {
    match b {
        VertexBufferRef::Mesh(_) => VertexKind::Model,
        VertexBufferRef::Instances => VertexKind::Instance,
    }
}

/// Bind-group slots of the main pipeline: material, camera, then the light
/// when lighting is on.
pub open spec fn main_bind_layout(opts: PassOptions) -> Seq<BindGroupKind> {
    seq![BindGroupKind::Material, BindGroupKind::Camera] + if opts.lighting {
        seq![BindGroupKind::Light]
    } else {
        Seq::empty()
    }
}

/// Vertex-buffer slots of the main pipeline: model vertices, then instance
/// matrices when instancing is on.
pub open spec fn main_vertex_layout(opts: PassOptions) -> Seq<VertexKind> {
    seq![VertexKind::Model] + if opts.instanced {
        seq![VertexKind::Instance]
    } else {
        Seq::empty()
    }
}

/// Bind-group slots of the light pipeline: camera, then light.
pub open spec fn light_bind_layout() -> Seq<BindGroupKind> {
    seq![BindGroupKind::Camera, BindGroupKind::Light]
}

/// Vertex-buffer slots of the light pipeline: model vertices only.
pub open spec fn light_vertex_layout() -> Seq<VertexKind> {
    seq![VertexKind::Model]
}

/// `c` binds, at a slot the layout has, a resource of the kind that slot
/// takes; it does not switch pipelines.
pub open spec fn conforms(c: RenderCommand, binds: Seq<BindGroupKind>, vbufs: Seq<VertexKind>) -> bool {
    match c {
        RenderCommand::SetPipeline(_) => false,
        RenderCommand::SetBindGroup { slot, group } => slot < binds.len() && binds[slot as int]
            == bind_kind(group),
        RenderCommand::SetVertexBuffer { slot, buffer } => slot < vbufs.len() && vbufs[slot as int]
            == vertex_kind(buffer),
        _ => true,
    }
}

pub open spec fn all_conform(
    cmds: Seq<RenderCommand>,
    binds: Seq<BindGroupKind>,
    vbufs: Seq<VertexKind>,
) -> bool {
    forall|j: int| 0 <= j < cmds.len() ==> conforms(#[trigger] cmds[j], binds, vbufs)
}

/// Primitive topology.
#[derive(Clone, Copy, Debug, PartialEq, Eq, Structural)]
pub enum Topology {
    TriangleList,
}

/// Depth comparison.
#[derive(Clone, Copy, Debug, PartialEq, Eq, Structural)]
pub enum DepthCompare {
    Less,
}

/// Everything a pipeline is built from besides its shader and target format.
#[derive(Clone, Debug)]
pub struct PipelineDesc {
    pub kind: PipelineKind,
    /// The bind-group layout at each slot.
    pub bind_groups: Vec<BindGroupKind>,
    /// The vertex-buffer layout at each slot.
    pub vertex_buffers: Vec<VertexKind>,
    pub topology: Topology,
    pub cull_back_faces: bool,
    pub front_face_ccw: bool,
    pub sample_count: u32,
    /// Colour and alpha replace what is in the target.
    pub blend_replace: bool,
    /// The depth test, when the pass has a depth attachment.
    pub depth_compare: Option<DepthCompare>,
}

impl PipelineDesc {
    /// The fixed-function state every pipeline shares.
    pub open spec fn fixed_state(self, depth: bool) -> bool {
        &&& self.topology == Topology::TriangleList
        &&& self.cull_back_faces
        &&& self.front_face_ccw
        &&& self.sample_count == 1
        &&& self.blend_replace
        &&& self.depth_compare == if depth {
            Some(DepthCompare::Less)
        } else {
            None
        }
    }

    /// The main pipeline for a pass with the given options.
    pub fn main(opts: PassOptions, depth: bool) -> (r: PipelineDesc)
        ensures
            r.kind == PipelineKind::Main,
            r.bind_groups@ == main_bind_layout(opts),
            r.vertex_buffers@ == main_vertex_layout(opts),
            r.fixed_state(depth),
    {
        let mut bind_groups = vec![BindGroupKind::Material, BindGroupKind::Camera];
        if opts.lighting {
            bind_groups.push(BindGroupKind::Light);
        }
        let mut vertex_buffers = vec![VertexKind::Model];
        if opts.instanced {
            vertex_buffers.push(VertexKind::Instance);
        }
        assert(bind_groups@ =~= main_bind_layout(opts));
        assert(vertex_buffers@ =~= main_vertex_layout(opts));
        PipelineDesc {
            kind: PipelineKind::Main,
            bind_groups,
            vertex_buffers,
            topology: Topology::TriangleList,
            cull_back_faces: true,
            front_face_ccw: true,
            sample_count: 1,
            blend_replace: true,
            depth_compare: if depth {
                Some(DepthCompare::Less)
            } else {
                None
            },
        }
    }

    /// The light-marker pipeline: an independent pipeline over the same
    /// vertex data, with its own bind-group layout.
    pub fn light(depth: bool) -> (r: PipelineDesc)
        ensures
            r.kind == PipelineKind::Light,
            r.bind_groups@ == light_bind_layout(),
            r.vertex_buffers@ == light_vertex_layout(),
            r.fixed_state(depth),
    {
        let bind_groups = vec![BindGroupKind::Camera, BindGroupKind::Light];
        let vertex_buffers = vec![VertexKind::Model];
        assert(bind_groups@ =~= light_bind_layout());
        assert(vertex_buffers@ =~= light_vertex_layout());
        PipelineDesc {
            kind: PipelineKind::Light,
            bind_groups,
            vertex_buffers,
            topology: Topology::TriangleList,
            cull_back_faces: true,
            front_face_ccw: true,
            sample_count: 1,
            blend_replace: true,
            depth_compare: if depth {
                Some(DepthCompare::Less)
            } else {
                None
            },
        }
    }
}

proof fn lemma_conform_concat(
    a: Seq<RenderCommand>,
    b: Seq<RenderCommand>,
    binds: Seq<BindGroupKind>,
    vbufs: Seq<VertexKind>,
)
    requires
        all_conform(a, binds, vbufs),
        all_conform(b, binds, vbufs),
    ensures
        all_conform(a + b, binds, vbufs),
{
    assert forall|j: int| 0 <= j < (a + b).len() implies conforms(
        #[trigger] (a + b)[j],
        binds,
        vbufs,
    ) by {
        if j < a.len() {
            assert((a + b)[j] == a[j]);
        } else {
            assert((a + b)[j] == b[j - a.len()]);
        }
    }
}

proof fn lemma_light_conforms(meshes: Seq<MeshDraw>, n: nat)
    requires
        n <= meshes.len(),
    ensures
        all_conform(light_commands(meshes, n), light_bind_layout(), light_vertex_layout()),
    decreases n,
{
    if n > 0 {
        lemma_light_conforms(meshes, (n - 1) as nat);
        let block = light_mesh_commands((n - 1) as usize, meshes[n - 1]);
        assert(all_conform(block, light_bind_layout(), light_vertex_layout()));
        lemma_conform_concat(
            light_commands(meshes, (n - 1) as nat),
            block,
            light_bind_layout(),
            light_vertex_layout(),
        );
    } else {
        assert(light_commands(meshes, 0) =~= Seq::<RenderCommand>::empty());
    }
}

proof fn lemma_main_block_conforms(i: usize, m: MeshDraw, opts: PassOptions, count: u32)
    ensures
        all_conform(
            main_mesh_commands(i, m, opts, count),
            main_bind_layout(opts),
            main_vertex_layout(opts),
        ),
{
    let block = main_mesh_commands(i, m, opts, count);
    let binds = main_bind_layout(opts);
    let vbufs = main_vertex_layout(opts);
    let drawn: u32 = if opts.instanced {
        count
    } else {
        1
    };
    let tail = seq![
        RenderCommand::SetIndexBuffer { mesh: i, format: m.index_format },
        RenderCommand::DrawIndexed { index_count: m.index_count, instance_count: drawn },
    ];
    let head = seq![
        RenderCommand::SetBindGroup { slot: 0, group: BindGroupRef::Material(m.material) },
        RenderCommand::SetBindGroup { slot: 1, group: BindGroupRef::Camera },
    ];
    let light = seq![RenderCommand::SetBindGroup { slot: 2, group: BindGroupRef::Light }];
    let vertex = seq![RenderCommand::SetVertexBuffer { slot: 0, buffer: VertexBufferRef::Mesh(i) }];
    let inst = seq![RenderCommand::SetVertexBuffer { slot: 1, buffer: VertexBufferRef::Instances }];
    if opts.lighting && opts.instanced {
        assert(block =~= head + light + vertex + inst + tail);
        assert(block =~= seq![head[0], head[1], light[0], vertex[0], inst[0], tail[0], tail[1]]);
    } else if opts.lighting {
        assert(block =~= seq![head[0], head[1], light[0], vertex[0], tail[0], tail[1]]);
    } else if opts.instanced {
        assert(block =~= seq![head[0], head[1], vertex[0], inst[0], tail[0], tail[1]]);
    } else {
        assert(block =~= seq![head[0], head[1], vertex[0], tail[0], tail[1]]);
    }
    assert(binds[0] == BindGroupKind::Material && binds[1] == BindGroupKind::Camera);
    assert(opts.lighting ==> binds[2] == BindGroupKind::Light);
    assert(vbufs[0] == VertexKind::Model);
    assert(opts.instanced ==> vbufs[1] == VertexKind::Instance);
}

proof fn lemma_main_conforms(meshes: Seq<MeshDraw>, n: nat, opts: PassOptions, count: u32)
    requires
        n <= meshes.len(),
    ensures
        all_conform(main_commands(meshes, n, opts, count), main_bind_layout(opts), main_vertex_layout(opts)),
    decreases n,
{
    if n > 0 {
        lemma_main_conforms(meshes, (n - 1) as nat, opts, count);
        lemma_main_block_conforms((n - 1) as usize, meshes[n - 1], opts, count);
        lemma_conform_concat(
            main_commands(meshes, (n - 1) as nat, opts, count),
            main_mesh_commands((n - 1) as usize, meshes[n - 1], opts, count),
            main_bind_layout(opts),
            main_vertex_layout(opts),
        );
    } else {
        assert(main_commands(meshes, 0, opts, count) =~= Seq::<RenderCommand>::empty());
    }
}

/// Every pass binds resources that match the pipeline bound at that point:
/// the pass is the light pipeline's segment (when present) followed by the
/// main pipeline's, each opened by its one pipeline switch, and within each
/// segment every bind group and vertex buffer goes to a slot its pipeline's
/// layout has, with the kind of resource that slot takes.
pub proof fn lemma_pass_bindings_match_layouts(meshes: Seq<MeshDraw>, opts: PassOptions, count: u32)
    ensures
        ({
            let light = light_commands(meshes, meshes.len());
            let main = main_commands(meshes, meshes.len(), opts, count);
            &&& pass_commands(meshes, opts, count) == (if opts.light_pass {
                seq![RenderCommand::SetPipeline(PipelineKind::Light)] + light
            } else {
                Seq::empty()
            }) + seq![RenderCommand::SetPipeline(PipelineKind::Main)] + main
            &&& all_conform(light, light_bind_layout(), light_vertex_layout())
            &&& all_conform(main, main_bind_layout(opts), main_vertex_layout(opts))
        }),
{
    lemma_light_conforms(meshes, meshes.len());
    lemma_main_conforms(meshes, meshes.len(), opts, count);
}

} // verus!
