//! Buffer descriptions, and the pipelines that are built from them.

pub mod mesh;

use vstd::layout::size_of;
use vstd::prelude::*;

verus! {

/// What a buffer serves as. Every buffer described here is also a copy
/// destination, so that data can be written into it after it was made.
#[derive(Clone, Copy, Debug, PartialEq, Eq, Structural)]
pub enum BufferUsage {
    Uniform,
    Storage,
    Vertex,
    Index,
}

/// The request for one device buffer: how many bytes it holds and what it
/// serves as.
#[derive(Clone, Copy, Debug, PartialEq, Eq, Structural)]
pub struct BufferDescriptor {
    pub size: u64,
    pub usage: BufferUsage,
    pub mapped_at_creation: bool,
}

/// The number of bytes that `count` values of type `T` take.
pub open spec fn array_size<T>(count: nat) -> nat {
    size_of::<T>() * count
}

/// The number of bytes that a buffer for `count` values of type `T` takes,
/// for one value where no count is given.
pub open spec fn buffer_size<T>(count: Option<u64>) -> nat {
    match count {
        None => array_size::<T>(1),
        Some(count) => array_size::<T>(count as nat),
    }
}

/// The buffer of the given use that holds `count` values of type `T`.
pub open spec fn array_buffer<T>(count: nat, usage: BufferUsage) -> BufferDescriptor {
    BufferDescriptor { size: array_size::<T>(count) as u64, usage, mapped_at_creation: false }
}

/// Describes a uniform buffer for one `T`, or for `count` of them.
pub fn create_uniform_buffer<T>(count: Option<u64>) -> (descriptor: BufferDescriptor)
    requires
        count is Some ==> buffer_size::<T>(count) <= u64::MAX,
    ensures
        descriptor == (BufferDescriptor {
            size: buffer_size::<T>(count) as u64,
            usage: BufferUsage::Uniform,
            mapped_at_creation: false,
        }),
{
    BufferDescriptor {
        size: match count {
            None => std::mem::size_of::<T>() as u64,
            Some(count) => (std::mem::size_of::<T>() as u64) * count,
        },
        usage: BufferUsage::Uniform,
        mapped_at_creation: false,
    }
}

/// Describes a storage buffer for one `T`, or for `count` of them.
pub fn create_storage_buffer<T>(count: Option<u64>) -> (descriptor: BufferDescriptor)
    requires
        count is Some ==> buffer_size::<T>(count) <= u64::MAX,
    ensures
        descriptor == (BufferDescriptor {
            size: buffer_size::<T>(count) as u64,
            usage: BufferUsage::Storage,
            mapped_at_creation: false,
        }),
{
    BufferDescriptor {
        size: match count {
            None => std::mem::size_of::<T>() as u64,
            Some(count) => (std::mem::size_of::<T>() as u64) * count,
        },
        usage: BufferUsage::Storage,
        mapped_at_creation: false,
    }
}

} // verus!
