//! Immutable mesh geometry: index validation and the choice of index width.

use vstd::prelude::*;
use crate::error::SetupError;

verus! {

/// Width of the entries of an index buffer.
#[derive(Clone, Copy, Debug, PartialEq, Eq, Structural)]
pub enum IndexFormat {
    Uint16,
    Uint32,
}

/// Every index fits in 16 bits.
pub open spec fn fits_u16(s: Seq<u32>) -> bool {
    forall|i: int| 0 <= i < s.len() ==> s[i] <= u16::MAX
}

/// The narrowest index width that holds every index of `s`.
pub open spec fn index_format_for(s: Seq<u32>) -> IndexFormat {
    if fits_u16(s) {
        IndexFormat::Uint16
    } else {
        IndexFormat::Uint32
    }
}

/// Every index refers to one of `vertex_count` vertices.
pub open spec fn indices_in_range(s: Seq<u32>, vertex_count: nat) -> bool {
    forall|i: int| 0 <= i < s.len() ==> s[i] < vertex_count
}

/// Index data packed at the width chosen for it.
#[derive(Clone, Debug)]
pub enum IndexData {
    Uint16(Vec<u16>),
    Uint32(Vec<u32>),
}

impl IndexData {
    /// The indices, whatever their width.
    pub open spec fn values(self) -> Seq<u32> {
        match self {
            IndexData::Uint16(v) => v@.map_values(|x: u16| x as u32),
            IndexData::Uint32(v) => v@,
        }
    }

    pub open spec fn spec_format(self) -> IndexFormat {
        match self {
            IndexData::Uint16(_) => IndexFormat::Uint16,
            IndexData::Uint32(_) => IndexFormat::Uint32,
        }
    }

    pub fn format(&self) -> (r: IndexFormat)
        ensures
            r == self.spec_format(),
    {
        match self {
            IndexData::Uint16(_) => IndexFormat::Uint16,
            IndexData::Uint32(_) => IndexFormat::Uint32,
        }
    }

    pub fn len(&self) -> (r: usize)
        ensures
            r == self.values().len(),
    {
        match self {
            IndexData::Uint16(v) => v.len(),
            IndexData::Uint32(v) => v.len(),
        }
    }
}

/// Tests whether every index fits in 16 bits.
pub fn all_fit_u16(indices: &Vec<u32>) -> (r: bool)
    ensures
        r == fits_u16(indices@),
{
    let mut i: usize = 0;
    while i < indices.len()
        invariant
            i <= indices@.len(),
            forall|j: int| 0 <= j < i ==> indices@[j] <= u16::MAX,
        decreases indices@.len() - i,
    {
        if indices[i] > 65535u32 {
            return false;
        }
        i = i + 1;
    }
    true
}

/// Packs the indices at 16 bits when every one fits, at 32 bits otherwise.
pub fn pack_indices(indices: &Vec<u32>) -> (r: IndexData)
    ensures
        r.values() == indices@,
        r.spec_format() == index_format_for(indices@),
{
    if all_fit_u16(indices) {
        let mut out: Vec<u16> = Vec::new();
        let mut i: usize = 0;
        while i < indices.len()
            invariant
                i <= indices@.len(),
                fits_u16(indices@),
                out@.len() == i,
                forall|j: int| 0 <= j < i ==> out@[j] as u32 == indices@[j],
            decreases indices@.len() - i,
        {
            out.push(indices[i] as u16);
            i = i + 1;
        }
        let r = IndexData::Uint16(out);
        assert(r.values() =~= indices@);
        r
    } else {
        IndexData::Uint32(indices.clone())
    }
}

/// Tests whether every index refers to one of `vertex_count` vertices.
pub fn all_in_range(indices: &Vec<u32>, vertex_count: usize) -> (r: bool)
    ensures
        r == indices_in_range(indices@, vertex_count as nat),
{
    let mut i: usize = 0;
    while i < indices.len()
        invariant
            i <= indices@.len(),
            forall|j: int| 0 <= j < i ==> indices@[j] < vertex_count,
        decreases indices@.len() - i,
    {
        if indices[i] as usize >= vertex_count {
            return false;
        }
        i = i + 1;
    }
    true
}

/// The index side of a mesh resident on the GPU: how many indices one draw
/// covers and at which width they are stored.
#[derive(Clone, Debug)]
pub struct Geometry {
    pub num_indices: u32,
    pub indices: IndexData,
}

impl Geometry {
    pub open spec fn spec_format(self) -> IndexFormat {
        self.indices.spec_format()
    }

    /// Validates and packs the index data of a mesh of `vertex_count` vertices.
    pub fn new(vertex_count: usize, indices: &Vec<u32>) -> (r: Result<Geometry, SetupError>)
        ensures
            !indices_in_range(indices@, vertex_count as nat) <==> r == Err::<Geometry, SetupError>(
                SetupError::IndexOutOfRange,
            ),
            indices_in_range(indices@, vertex_count as nat) && indices@.len() > u32::MAX
                <==> r == Err::<Geometry, SetupError>(SetupError::TooManyIndices),
            r is Ok <==> indices_in_range(indices@, vertex_count as nat) && indices@.len() <= u32::MAX,
            r matches Ok(g) ==> {
                &&& g.num_indices == indices@.len()
                &&& g.indices.values() == indices@
                &&& g.spec_format() == index_format_for(indices@)
            },
    {
        if !all_in_range(indices, vertex_count) {
            return Err(SetupError::IndexOutOfRange);
        }
        if indices.len() > 4294967295usize {
            return Err(SetupError::TooManyIndices);
        }
        Ok(Geometry { num_indices: indices.len() as u32, indices: pack_indices(indices) })
    }

    pub fn index_format(&self) -> (r: IndexFormat)
        ensures
            r == self.spec_format(),
    {
        self.indices.format()
    }
}

} // verus!
