//! The commands of one render pass, in the order in which they are recorded.

use vstd::prelude::*;
use crate::geometry::{Geometry, IndexFormat};

verus! {

/// Which pipeline a command binds.
#[derive(Clone, Copy, Debug, PartialEq, Eq, Structural)]
pub enum PipelineKind {
    /// The main textured, lit, instanced pipeline.
    Main,
    /// The pipeline that draws the light's position marker.
    Light,
}

/// Which bind group a command binds.
#[derive(Clone, Copy, Debug, PartialEq, Eq, Structural)]
pub enum BindGroupRef {
    /// The bind group of the material with this index.
    Material(usize),
    Camera,
    Light,
}

/// Which vertex buffer a command binds.
#[derive(Clone, Copy, Debug, PartialEq, Eq, Structural)]
pub enum VertexBufferRef {
    /// The vertex buffer of the mesh with this index.
    Mesh(usize),
    /// The per-instance model matrices.
    Instances,
}

/// One command recorded into a render pass.
#[derive(Clone, Copy, Debug, PartialEq, Eq, Structural)]
pub enum RenderCommand {
    SetPipeline(PipelineKind),
    SetBindGroup { slot: u32, group: BindGroupRef },
    SetVertexBuffer { slot: u32, buffer: VertexBufferRef },
    /// Binds the index buffer of the mesh with this index.
    SetIndexBuffer { mesh: usize, format: IndexFormat },
    /// Draws `index_count` indices from index 0, for instances `0..instance_count`.
    DrawIndexed { index_count: u32, instance_count: u32 },
}

/// What a pass needs to know of one mesh.
#[derive(Clone, Copy, Debug, PartialEq, Eq, Structural)]
pub struct MeshDraw {
    pub index_count: u32,
    pub index_format: IndexFormat,
    /// Index of the mesh's material.
    pub material: usize,
}

impl MeshDraw {
    pub fn from_geometry(g: &Geometry, material: usize) -> (r: MeshDraw)
        ensures
            r.index_count == g.num_indices,
            r.index_format == g.spec_format(),
            r.material == material,
    {
        MeshDraw { index_count: g.num_indices, index_format: g.index_format(), material }
    }
}

/// Which optional parts of the pass are present.
#[derive(Clone, Copy, Debug, PartialEq, Eq, Structural)]
pub struct PassOptions {
    /// Draw the light marker with its own pipeline before the main pipeline.
    pub light_pass: bool,
    /// Bind the light bind group at slot 2 of the main pipeline.
    pub lighting: bool,
    /// Bind the instance buffer at vertex slot 1 and draw every instance.
    pub instanced: bool,
}

/// The light pipeline's commands for mesh `i`.
pub open spec fn light_mesh_commands(i: usize, m: MeshDraw) -> Seq<RenderCommand> {
    seq![
        RenderCommand::SetBindGroup { slot: 0, group: BindGroupRef::Camera },
        RenderCommand::SetBindGroup { slot: 1, group: BindGroupRef::Light },
        RenderCommand::SetVertexBuffer { slot: 0, buffer: VertexBufferRef::Mesh(i) },
        RenderCommand::SetIndexBuffer { mesh: i, format: m.index_format },
        RenderCommand::DrawIndexed { index_count: m.index_count, instance_count: 1 },
    ]
}

/// The main pipeline's commands for mesh `i`: bind groups by slot, then
/// vertex buffers by slot, then the index buffer, then the draw.
pub open spec fn main_mesh_commands(
    i: usize,
    m: MeshDraw,
    opts: PassOptions,
    instance_count: u32,
) -> Seq<RenderCommand> {
    seq![
        RenderCommand::SetBindGroup { slot: 0, group: BindGroupRef::Material(m.material) },
        RenderCommand::SetBindGroup { slot: 1, group: BindGroupRef::Camera },
    ] + (if opts.lighting {
        seq![RenderCommand::SetBindGroup { slot: 2, group: BindGroupRef::Light }]
    } else {
        Seq::empty()
    }) + seq![RenderCommand::SetVertexBuffer { slot: 0, buffer: VertexBufferRef::Mesh(i) }] + (
    if opts.instanced {
        seq![RenderCommand::SetVertexBuffer { slot: 1, buffer: VertexBufferRef::Instances }]
    } else {
        Seq::empty()
    }) + seq![
        RenderCommand::SetIndexBuffer { mesh: i, format: m.index_format },
        RenderCommand::DrawIndexed {
            index_count: m.index_count,
            instance_count: if opts.instanced {
                instance_count
            } else {
                1
            },
        },
    ]
}

/// The light pipeline's commands for the first `n` meshes.
pub open spec fn light_commands(meshes: Seq<MeshDraw>, n: nat) -> Seq<RenderCommand>
    decreases n,
{
    if n == 0 {
        Seq::empty()
    } else {
        light_commands(meshes, (n - 1) as nat) + light_mesh_commands(
            (n - 1) as usize,
            meshes[n - 1],
        )
    }
}

/// The main pipeline's commands for the first `n` meshes.
pub open spec fn main_commands(
    meshes: Seq<MeshDraw>,
    n: nat,
    opts: PassOptions,
    instance_count: u32,
) -> Seq<RenderCommand>
    decreases n,
{
    if n == 0 {
        Seq::empty()
    } else {
        main_commands(meshes, (n - 1) as nat, opts, instance_count) + main_mesh_commands(
            (n - 1) as usize,
            meshes[n - 1],
            opts,
            instance_count,
        )
    }
}

/// The whole pass: the light marker first when it is drawn, then the scene.
pub open spec fn pass_commands(
    meshes: Seq<MeshDraw>,
    opts: PassOptions,
    instance_count: u32,
) -> Seq<RenderCommand> {
    (if opts.light_pass {
        seq![RenderCommand::SetPipeline(PipelineKind::Light)] + light_commands(
            meshes,
            meshes.len(),
        )
    } else {
        Seq::empty()
    }) + seq![RenderCommand::SetPipeline(PipelineKind::Main)] + main_commands(
        meshes,
        meshes.len(),
        opts,
        instance_count,
    )
}

fn light_mesh_plan(i: usize, m: MeshDraw) -> (r: Vec<RenderCommand>)
    ensures
        r@ == light_mesh_commands(i, m),
{
    let r = vec![
        RenderCommand::SetBindGroup { slot: 0, group: BindGroupRef::Camera },
        RenderCommand::SetBindGroup { slot: 1, group: BindGroupRef::Light },
        RenderCommand::SetVertexBuffer { slot: 0, buffer: VertexBufferRef::Mesh(i) },
        RenderCommand::SetIndexBuffer { mesh: i, format: m.index_format },
        RenderCommand::DrawIndexed { index_count: m.index_count, instance_count: 1 },
    ];
    assert(r@ =~= light_mesh_commands(i, m));
    r
}

fn main_mesh_plan(i: usize, m: MeshDraw, opts: PassOptions, instance_count: u32) -> (r: Vec<
    RenderCommand,
>)
    ensures
        r@ == main_mesh_commands(i, m, opts, instance_count),
{
    let mut r = vec![
        RenderCommand::SetBindGroup { slot: 0, group: BindGroupRef::Material(m.material) },
        RenderCommand::SetBindGroup { slot: 1, group: BindGroupRef::Camera },
    ];
    if opts.lighting {
        r.push(RenderCommand::SetBindGroup { slot: 2, group: BindGroupRef::Light });
    }
    r.push(RenderCommand::SetVertexBuffer { slot: 0, buffer: VertexBufferRef::Mesh(i) });
    if opts.instanced {
        r.push(RenderCommand::SetVertexBuffer { slot: 1, buffer: VertexBufferRef::Instances });
    }
    r.push(RenderCommand::SetIndexBuffer { mesh: i, format: m.index_format });
    let drawn: u32 = if opts.instanced {
        instance_count
    } else {
        1
    };
    r.push(RenderCommand::DrawIndexed { index_count: m.index_count, instance_count: drawn });
    assert(r@ =~= main_mesh_commands(i, m, opts, instance_count));
    r
}

/// Plans the commands of one pass over `meshes`, drawing `instance_count`
/// instances of each when instancing is on.
pub fn plan_pass(meshes: &Vec<MeshDraw>, opts: PassOptions, instance_count: u32) -> (r: Vec<
    RenderCommand,
>)
    ensures
        r@ == pass_commands(meshes@, opts, instance_count),
{
    let mut out: Vec<RenderCommand> = Vec::new();
    if opts.light_pass {
        out.push(RenderCommand::SetPipeline(PipelineKind::Light));
        let mut i: usize = 0;
        while i < meshes.len()
            invariant
                i <= meshes@.len(),
                out@ == seq![RenderCommand::SetPipeline(PipelineKind::Light)] + light_commands(
                    meshes@,
                    i as nat,
                ),
            decreases meshes@.len() - i,
        {
            let mut cmds = light_mesh_plan(i, meshes[i]);
            out.append(&mut cmds);
            assert(out@ =~= seq![RenderCommand::SetPipeline(PipelineKind::Light)] + light_commands(
                meshes@,
                (i + 1) as nat,
            ));
            i = i + 1;
        }
    }
    let ghost light_part = out@;
    out.push(RenderCommand::SetPipeline(PipelineKind::Main));
    let mut i: usize = 0;
    while i < meshes.len()
        invariant
            i <= meshes@.len(),
            out@ == light_part + seq![RenderCommand::SetPipeline(PipelineKind::Main)]
                + main_commands(meshes@, i as nat, opts, instance_count),
        decreases meshes@.len() - i,
    {
        let mut cmds = main_mesh_plan(i, meshes[i], opts, instance_count);
        out.append(&mut cmds);
        assert(out@ =~= light_part + seq![RenderCommand::SetPipeline(PipelineKind::Main)]
            + main_commands(meshes@, (i + 1) as nat, opts, instance_count));
        i = i + 1;
    }
    assert(out@ =~= pass_commands(meshes@, opts, instance_count));
    out
}

} // verus!
