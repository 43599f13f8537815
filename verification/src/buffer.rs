//! The host-visible staging buffer: written once with the caller's
//! elements, read once by the device-side copy. Its memory comes from
//! the device pool, one unit per element, and its identity key makes it
//! addressable by recorded copy commands.

use vstd::prelude::*;
use crate::device::Device;
use crate::device::MemReqs;
use crate::errors::OomError;

verus! {

/// What a buffer may be used for.
#[derive(Clone, Copy, Debug, PartialEq, Eq, Structural)]
pub struct BufferUsage {
    pub transfer_source: bool,
    pub transfer_destination: bool,
}

impl BufferUsage {
    pub fn none() -> (r: BufferUsage)
        ensures
            r == (BufferUsage { transfer_source: false, transfer_destination: false }),
    {
        BufferUsage { transfer_source: false, transfer_destination: false }
    }

    /// The usage of a staging buffer: a transfer source and nothing else.
    pub fn transfer_source() -> (r: BufferUsage)
        ensures
            r == (BufferUsage { transfer_source: true, transfer_destination: false }),
    {
        BufferUsage { transfer_source: true, transfer_destination: false }
    }
}

/// A host-visible, device-readable buffer of elements of type `P`, sized
/// exactly to the data it was built from.
pub struct CpuAccessibleBuffer<P> {
    key: u64,
    usage: BufferUsage,
    host_cached: bool,
    memory: crate::device::MemAlloc,
    data: Vec<P>,
}

impl<P> CpuAccessibleBuffer<P> {
    pub closed spec fn spec_key(self) -> u64 {
        self.key
    }

    pub closed spec fn spec_usage(self) -> BufferUsage {
        self.usage
    }

    /// The elements the buffer holds, in the order they were supplied.
    pub closed spec fn contents(self) -> Seq<P> {
        self.data@
    }

    /// Builds a buffer holding exactly the supplied elements, in order,
    /// backed by pool memory of one unit per element. Fails, leaving the
    /// device untouched, exactly when the pool cannot hold them.
    pub fn from_iter(
        device: &mut Device,
        usage: BufferUsage,
        host_cached: bool,
        data: Vec<P>,
    ) -> (r: Result<CpuAccessibleBuffer<P>, OomError>)
        requires
            old(device).wf(),
            old(device).spec_next_key() < u64::MAX,
        ensures
            final(device).wf(),
            old(device).same_device(*final(device)),
            r is Ok <==> old(device).spec_can_alloc(data@.len() as u64, 1),
            r matches Ok(b) ==> {
                &&& b.contents() == data@
                &&& b.spec_usage() == usage
                &&& b.spec_key() == old(device).spec_next_key()
                &&& final(device).spec_next_key() == old(device).spec_next_key() + 1
                &&& final(device).spec_pool_used() == old(device).spec_pool_used()
                    + data@.len()
            },
            r is Err ==> r == Err::<CpuAccessibleBuffer<P>, OomError>(
                OomError::OutOfDeviceMemory,
            ) && *final(device) == *old(device),
    {
        let len: u64 = data.len() as u64;
        let reqs = MemReqs { size: len, alignment: 1 };
        let mem = match device.alloc_from_requirements(reqs) {
            Ok(m) => m,
            Err(e) => {
                return Err(e);
            },
        };
        let key = device.allocate_key();
        Ok(CpuAccessibleBuffer { key, usage, host_cached, memory: mem, data })
    }

    pub fn len(&self) -> (r: usize)
        ensures
            r == self.contents().len(),
    {
        self.data.len()
    }

    /// The staged elements, for host-side inspection.
    pub fn read(&self) -> (r: &Vec<P>)
        ensures
            r@ == self.contents(),
    {
        &self.data
    }

    pub fn key(&self) -> (r: u64)
        ensures
            r == self.spec_key(),
    {
        self.key
    }
}

} // verus!
