//! Vertex buffer layouts: the stride and attribute list of each vertex type,
//! fixed when a pipeline is built.

use vstd::prelude::*;

verus! {

/// The format of one vertex attribute.
#[derive(Clone, Copy, Debug, PartialEq, Eq, Structural)]
pub enum VertexFormat {
    Float32x2,
    Float32x3,
    Float32x4,
}

/// Size of an attribute of format `f`, in bytes.
pub open spec fn format_size(f: VertexFormat) -> nat {
    match f {
        VertexFormat::Float32x2 => 8,
        VertexFormat::Float32x3 => 12,
        VertexFormat::Float32x4 => 16,
    }
}

pub fn format_bytes(f: VertexFormat) -> (r: u64)
    ensures
        r == format_size(f),
{
    match f {
        VertexFormat::Float32x2 => 8,
        VertexFormat::Float32x3 => 12,
        VertexFormat::Float32x4 => 16,
    }
}

/// Whether the buffer advances per vertex or per instance.
#[derive(Clone, Copy, Debug, PartialEq, Eq, Structural)]
pub enum StepMode {
    Vertex,
    Instance,
}

#[derive(Clone, Copy, Debug, PartialEq, Eq, Structural)]
pub struct VertexAttribute {
    /// Byte offset of the attribute within one element.
    pub offset: u64,
    pub shader_location: u32,
    pub format: VertexFormat,
}

/// The layout of one vertex buffer.
#[derive(Clone, Debug)]
pub struct VertexLayout {
    /// Bytes from one element to the next.
    pub array_stride: u64,
    pub step_mode: StepMode,
    pub attributes: Vec<VertexAttribute>,
}

/// Total size of the first `n` formats, in bytes.
pub open spec fn packed_size(fs: Seq<VertexFormat>, n: nat) -> nat
    decreases n,
{
    if n == 0 || n > fs.len() {
        0
    } else {
        packed_size(fs, (n - 1) as nat) + format_size(fs[n - 1])
    }
}

/// Attributes packed back to back in the order given, at consecutive
/// shader locations from `first_location`.
pub open spec fn packed_attributes(first_location: u32, fs: Seq<VertexFormat>) -> Seq<
    VertexAttribute,
> {
    Seq::new(
        fs.len(),
        |i: int|
            VertexAttribute {
                offset: packed_size(fs, i as nat) as u64,
                shader_location: (first_location + i) as u32,
                format: fs[i],
            },
    )
}

proof fn lemma_packed_size_bound(fs: Seq<VertexFormat>, n: nat)
    ensures
        packed_size(fs, n) <= 16 * n,
    decreases n,
{
    if n > 0 && n <= fs.len() {
        lemma_packed_size_bound(fs, (n - 1) as nat);
    }
}

/// Packs attributes of the given formats back to back.
pub fn attribute_array(first_location: u32, formats: &Vec<VertexFormat>) -> (r: Vec<
    VertexAttribute,
>)
    requires
        first_location + formats@.len() <= u32::MAX + 1,
        formats@.len() <= u32::MAX,
    ensures
        r@ == packed_attributes(first_location, formats@),
{
    let mut out: Vec<VertexAttribute> = Vec::new();
    let mut offset: u64 = 0;
    let mut i: usize = 0;
    while i < formats.len()
        invariant
            i <= formats@.len(),
            formats@.len() <= u32::MAX,
            first_location + formats@.len() <= u32::MAX + 1,
            offset == packed_size(formats@, i as nat),
            out@ =~= packed_attributes(first_location, formats@.take(i as int)),
        decreases formats@.len() - i,
    {
        proof {
            lemma_packed_size_bound(formats@, i as nat);
            lemma_packed_prefix(formats@, i as nat);
        }
        out.push(
            VertexAttribute {
                offset,
                shader_location: first_location + i as u32,
                format: formats[i],
            },
        );
        offset = offset + format_bytes(formats[i]);
        i = i + 1;
        proof {
            lemma_packed_prefix(formats@, i as nat);
        }
        assert(out@ =~= packed_attributes(first_location, formats@.take(i as int)));
    }
    assert(formats@.take(i as int) =~= formats@);
    out
}

/// The packed size of a prefix does not depend on what follows it.
proof fn lemma_packed_prefix(fs: Seq<VertexFormat>, n: nat)
    requires
        n <= fs.len(),
    ensures
        forall|m: nat| m <= n ==> #[trigger] packed_size(fs.take(n as int), m) == packed_size(fs, m),
    decreases n,
{
    assert forall|m: nat| m <= n implies #[trigger] packed_size(fs.take(n as int), m) == packed_size(
        fs,
        m,
    ) by {
        lemma_packed_take(fs, n, m);
    }
}

proof fn lemma_packed_take(fs: Seq<VertexFormat>, n: nat, m: nat)
    requires
        m <= n <= fs.len(),
    ensures
        packed_size(fs.take(n as int), m) == packed_size(fs, m),
    decreases m,
{
    if m > 0 {
        lemma_packed_take(fs, n, (m - 1) as nat);
    }
}

/// The attribute formats of a model vertex: position, texture coordinates,
/// normal, tangent and bitangent.
pub open spec fn model_vertex_formats() -> Seq<VertexFormat> {
    seq![
        VertexFormat::Float32x3,
        VertexFormat::Float32x2,
        VertexFormat::Float32x3,
        VertexFormat::Float32x3,
        VertexFormat::Float32x3,
    ]
}

/// The first shader location of the per-instance model matrix; locations
/// below it belong to the model vertex.
pub const INSTANCE_FIRST_LOCATION: u32 = 5;

/// The layout of a model vertex: its five attributes packed from location 0,
/// stepped per vertex.
pub fn model_vertex_layout() -> (r: VertexLayout)
    ensures
        r.array_stride == packed_size(model_vertex_formats(), 5),
        r.array_stride == 56,
        r.step_mode == StepMode::Vertex,
        r.attributes@ == packed_attributes(0, model_vertex_formats()),
{
    let formats = vec![
        VertexFormat::Float32x3,
        VertexFormat::Float32x2,
        VertexFormat::Float32x3,
        VertexFormat::Float32x3,
        VertexFormat::Float32x3,
    ];
    assert(formats@ =~= model_vertex_formats());
    let ghost fs = model_vertex_formats();
    assert(fs.len() == 5 && fs[0] == VertexFormat::Float32x3);
    assert(packed_size(fs, 0) == 0);
    assert(packed_size(fs, 1) == 12);
    assert(packed_size(fs, 2) == 20);
    assert(packed_size(fs, 3) == 32);
    assert(packed_size(fs, 4) == 44);
    assert(packed_size(fs, 5) == 56);
    VertexLayout { array_stride: 56, step_mode: StepMode::Vertex, attributes: attribute_array(0, &formats) }
}

/// The four columns of a 4x4 float matrix.
pub open spec fn instance_formats() -> Seq<VertexFormat> {
    seq![
        VertexFormat::Float32x4,
        VertexFormat::Float32x4,
        VertexFormat::Float32x4,
        VertexFormat::Float32x4,
    ]
}

/// The layout of the per-instance model matrix: four columns of four floats
/// from `INSTANCE_FIRST_LOCATION`, stepped per instance.
pub fn instance_layout() -> (r: VertexLayout)
    ensures
        r.array_stride == packed_size(instance_formats(), 4),
        r.array_stride == 64,
        r.step_mode == StepMode::Instance,
        r.attributes@ == packed_attributes(
            INSTANCE_FIRST_LOCATION,
            instance_formats(),
        ),
{
    let formats = vec![
        VertexFormat::Float32x4,
        VertexFormat::Float32x4,
        VertexFormat::Float32x4,
        VertexFormat::Float32x4,
    ];
    assert(formats@ =~= instance_formats());
    let ghost fs = instance_formats();
    assert(fs.len() == 4 && fs[0] == VertexFormat::Float32x4);
    assert(packed_size(fs, 0) == 0);
    assert(packed_size(fs, 1) == 16);
    assert(packed_size(fs, 2) == 32);
    assert(packed_size(fs, 3) == 48);
    assert(packed_size(fs, 4) == 64);
    VertexLayout {
        array_stride: 64,
        step_mode: StepMode::Instance,
        attributes: attribute_array(INSTANCE_FIRST_LOCATION, &formats),
    }
}

} // verus!
