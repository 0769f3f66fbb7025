//! Streamed uniform buffers: the bookkeeping state that tracks how one
//! uniform instance's backing bytes are used.

use vstd::prelude::*;

verus! {

/// How a uniform instance's backing memory is used: either a number of
/// elements of a known size, or not used yet.
#[derive(Debug, Clone, Copy)]
pub enum GraphicsStreamedUniformDataType {
    Arbitrary { element_size: usize, element_count: usize },
    Unused,
}

impl GraphicsStreamedUniformDataType {
    /// Mutable access to the element count.  Callers must only ask for the
    /// count of an instance whose element layout is already known; anything
    /// else is a caller bug.
    pub fn count_mut(&mut self) -> (r: &mut usize)
        requires
            *old(self) is Arbitrary,
        ensures
            *r == (*old(self))->Arbitrary_element_count,
            *final (self) == (GraphicsStreamedUniformDataType::Arbitrary {
                element_size: (*old(self))->Arbitrary_element_size,
                element_count: *final (r),
            }),
    {
        match self {
            GraphicsStreamedUniformDataType::Arbitrary { element_count, .. } => element_count,
            GraphicsStreamedUniformDataType::Unused => vstd::pervasive::unreached(),
        }
    }
}

/// Backing bytes handed in by the graphics backend; the wrapper keeps them
/// private so no alias to the memory can be taken.
#[derive(Debug)]
pub struct GraphicsStreamUniformRawDataStatic {
    mem: Vec<u8>,
}

impl View for GraphicsStreamUniformRawDataStatic {
    type V = Seq<u8>;

    closed spec fn view(&self) -> Seq<u8> {
        self.mem@
    }
}

impl GraphicsStreamUniformRawDataStatic {
    pub fn new(mem: Vec<u8>) -> (r: Self)
        ensures
            r@ == mem@,
    {
        GraphicsStreamUniformRawDataStatic { mem }
    }

    /// The backing bytes, read-only.
    pub fn as_slice(&self) -> (r: &[u8])
        ensures
            r@ == self@,
    {
        self.mem.as_slice()
    }
}

/// A uniform instance's backing bytes: backend-provided memory or an owned
/// vector.
#[derive(Debug)]
pub enum GraphicsStreamedUniformRawData {
    Raw(GraphicsStreamUniformRawDataStatic),
    Vector(Vec<u8>),
}

impl View for GraphicsStreamedUniformRawData {
    type V = Seq<u8>;

    open spec fn view(&self) -> Seq<u8> {
        match self {
            GraphicsStreamedUniformRawData::Raw(r) => r@,
            GraphicsStreamedUniformRawData::Vector(v) => v@,
        }
    }
}

impl GraphicsStreamedUniformRawData {
    /// The backing bytes, read-only, whatever their source.
    pub fn as_slice(&self) -> (r: &[u8])
        ensures
            r@ == self@,
    {
        match self {
            GraphicsStreamedUniformRawData::Raw(r) => r.as_slice(),
            GraphicsStreamedUniformRawData::Vector(v) => v.as_slice(),
        }
    }

    /// Number of backing bytes.
    pub fn len(&self) -> (r: usize)
        ensures
            r == self@.len(),
    {
        match self {
            GraphicsStreamedUniformRawData::Raw(r) => r.as_slice().len(),
            GraphicsStreamedUniformRawData::Vector(v) => v.len(),
        }
    }
}

/// One streamed uniform instance: its backing bytes and how much of them
/// is used.
#[derive(Debug)]
pub struct GraphicsStreamedUniformData {
    pub raw: GraphicsStreamedUniformRawData,
    pub used_count: GraphicsStreamedUniformDataType,
}

impl GraphicsStreamedUniformData {
    pub fn new(raw: GraphicsStreamedUniformRawData) -> (r: Self)
        ensures
            r.raw == raw,
            r.used_count is Unused,
    {
        GraphicsStreamedUniformData { raw, used_count: GraphicsStreamedUniformDataType::Unused }
    }
}

} // verus!
