//! The modeled device context: a queue-family roster, a monotonically
//! increasing identity-key counter for device objects, a finite memory
//! pool with aligned allocation, and a lost flag standing for a device
//! that has stopped serving requests.
//!
//! The device is an explicit parameter of every operation that needs it;
//! nothing in this crate keeps ambient device state.

use vstd::prelude::*;
use crate::errors::OomError;

verus! {

/// The alignment the modeled device demands of image memory.
pub const ALLOC_ALIGNMENT: u64 = 256;

/// `x` rounded up to the next multiple of `a`.
pub open spec fn spec_round_up(x: int, a: int) -> int
    recommends
        a >= 1,
        x >= 0,
{
    if x % a == 0 {
        x
    } else {
        x + a - x % a
    }
}

/// What an image requires of its memory: a size in texels and an
/// alignment its offset must respect.
#[derive(Clone, Copy, Debug, PartialEq, Eq, Structural)]
pub struct MemReqs {
    pub size: u64,
    pub alignment: u64,
}

/// A region of pool memory handed out by the device: an offset that
/// respects the requested alignment, and the allocated size.
#[derive(Clone, Copy, Debug, PartialEq, Eq, Structural)]
pub struct MemAlloc {
    offset: u64,
    size: u64,
}

impl MemAlloc {
    pub closed spec fn spec_offset(self) -> u64 {
        self.offset
    }

    pub closed spec fn spec_size(self) -> u64 {
        self.size
    }

    pub fn offset(&self) -> (r: u64)
        ensures
            r == self.spec_offset(),
    {
        self.offset
    }

    pub fn size(&self) -> (r: u64)
        ensures
            r == self.spec_size(),
    {
        self.size
    }
}

/// One queue family of the device, named by its identifier.
#[derive(Clone, Copy, Debug, PartialEq, Eq, Structural)]
pub struct QueueFamily {
    pub id: u32,
}

impl QueueFamily {
    pub fn id(&self) -> (r: u32)
        ensures
            r == self.id,
    {
        self.id
    }
}

/// A handle to one queue of a queue family, the target of submissions.
#[derive(Clone, Copy, Debug, PartialEq, Eq, Structural)]
pub struct Queue {
    family: u32,
}

impl Queue {
    pub closed spec fn spec_family(self) -> u32 {
        self.family
    }

    pub fn new(family: QueueFamily) -> (q: Queue)
        ensures
            q.spec_family() == family.id,
    {
        Queue { family: family.id }
    }

    pub fn family(&self) -> (r: QueueFamily)
        ensures
            r.id == self.spec_family(),
    {
        QueueFamily { id: self.family }
    }
}

/// The modeled device.
pub struct Device {
    lost: bool,
    next_key: u64,
    pool_capacity: u64,
    pool_used: u64,
    families: Vec<u32>,
}

impl Device {
    /// The device has stopped serving requests; submissions fail.
    pub closed spec fn spec_lost(self) -> bool {
        self.lost
    }

    /// The identity key the next created device object receives.
    pub closed spec fn spec_next_key(self) -> u64 {
        self.next_key
    }

    pub closed spec fn spec_pool_capacity(self) -> u64 {
        self.pool_capacity
    }

    pub closed spec fn spec_pool_used(self) -> u64 {
        self.pool_used
    }

    pub closed spec fn spec_families(self) -> Seq<u32> {
        self.families@
    }

    pub open spec fn wf(self) -> bool {
        self.spec_pool_used() <= self.spec_pool_capacity()
    }

    /// The pool can serve a request of `size` at alignment `align`.
    pub open spec fn spec_can_alloc(self, size: u64, align: u64) -> bool {
        spec_round_up(self.spec_pool_used() as int, align as int) + size
            <= self.spec_pool_capacity()
    }

    /// The device and every derived handle keep these attributes fixed;
    /// only the pool fill level and the key counter move.
    pub open spec fn same_device(self, other: Device) -> bool {
        &&& self.spec_lost() == other.spec_lost()
        &&& self.spec_pool_capacity() == other.spec_pool_capacity()
        &&& self.spec_families() == other.spec_families()
    }

    pub fn new(pool_capacity: u64, families: Vec<u32>) -> (d: Device)
        ensures
            d.wf(),
            !d.spec_lost(),
            d.spec_next_key() == 0,
            d.spec_pool_capacity() == pool_capacity,
            d.spec_pool_used() == 0,
            d.spec_families() == families@,
    {
        Device { lost: false, next_key: 0, pool_capacity, pool_used: 0, families }
    }

    /// Marks the device lost: every later submission is refused.
    pub fn set_lost(&mut self)
        ensures
            final(self).spec_lost(),
            final(self).spec_next_key() == old(self).spec_next_key(),
            final(self).spec_pool_capacity() == old(self).spec_pool_capacity(),
            final(self).spec_pool_used() == old(self).spec_pool_used(),
            final(self).spec_families() == old(self).spec_families(),
    {
        self.lost = true;
    }

    pub fn is_lost(&self) -> (r: bool)
        ensures
            r == self.spec_lost(),
    {
        self.lost
    }

    /// The queue families the device exposes, in roster order.
    pub fn active_queue_families(&self) -> (r: Vec<QueueFamily>)
        ensures
            r@.len() == self.spec_families().len(),
            forall|i: int|
                0 <= i < r@.len() ==> r@[i].id == self.spec_families()[i],
    {
        let mut out: Vec<QueueFamily> = Vec::new();
        let mut i: usize = 0;
        while i < self.families.len()
            invariant
                i <= self.families.len(),
                out@.len() == i,
                forall|j: int| 0 <= j < i ==> out@[j].id == self.families@[j],
            decreases self.families.len() - i,
        {
            out.push(QueueFamily { id: self.families[i] });
            i = i + 1;
        }
        out
    }

    /// Draws a fresh identity key; keys are never reused.
    pub(crate) fn allocate_key(&mut self) -> (r: u64)
        requires
            old(self).spec_next_key() < u64::MAX,
        ensures
            r == old(self).spec_next_key(),
            final(self).spec_next_key() == old(self).spec_next_key() + 1,
            final(self).spec_pool_used() == old(self).spec_pool_used(),
            old(self).same_device(*final(self)),
            old(self).wf() ==> final(self).wf(),
    {
        let k = self.next_key;
        self.next_key = k + 1;
        k
    }

    /// Reports whether the pool could serve a request of `size` at
    /// alignment `align`, without touching the device.
    pub fn can_allocate(&self, size: u64, align: u64) -> (r: bool)
        requires
            self.wf(),
            align >= 1,
        ensures
            r == self.spec_can_alloc(size, align),
    {
        let used = self.pool_used;
        let rem = used % align;
        let pad = if rem == 0 {
            0
        } else {
            align - rem
        };
        proof {
            vstd::arithmetic::div_mod::lemma_mod_bound(used as int, align as int);
        }
        if pad > self.pool_capacity - used {
            return false;
        }
        let offset = used + pad;
        size <= self.pool_capacity - offset
    }

    /// The pool can serve a staging request of `staging` units at
    /// alignment one and, after it, an image request of `image_size`
    /// units at the device's image alignment.
    pub open spec fn spec_can_alloc_pair(self, staging: u64, image_size: u64) -> bool {
        &&& self.spec_pool_used() + staging <= self.spec_pool_capacity()
        &&& spec_round_up(
            self.spec_pool_used() + staging,
            ALLOC_ALIGNMENT as int,
        ) + image_size <= self.spec_pool_capacity()
    }

    /// Reports whether a staging allocation followed by an image
    /// allocation would both fit, without touching the device.
    pub fn can_allocate_pair(&self, staging: u64, image_size: u64) -> (r: bool)
        requires
            self.wf(),
        ensures
            r == self.spec_can_alloc_pair(staging, image_size),
    {
        if staging > self.pool_capacity - self.pool_used {
            return false;
        }
        let used2 = self.pool_used + staging;
        let rem = used2 % ALLOC_ALIGNMENT;
        let pad = if rem == 0 {
            0
        } else {
            ALLOC_ALIGNMENT - rem
        };
        proof {
            vstd::arithmetic::div_mod::lemma_mod_bound(used2 as int, ALLOC_ALIGNMENT as int);
        }
        if pad > self.pool_capacity - used2 {
            return false;
        }
        let offset = used2 + pad;
        image_size <= self.pool_capacity - offset
    }

    /// Carves a region of the requested size from the pool at the next
    /// offset that respects the requested alignment. Fails, leaving the
    /// device untouched, exactly when the remaining pool cannot hold the
    /// region.
    pub fn alloc_from_requirements(&mut self, reqs: MemReqs) -> (r: Result<MemAlloc, OomError>)
        requires
            old(self).wf(),
            reqs.alignment >= 1,
        ensures
            final(self).wf(),
            old(self).same_device(*final(self)),
            final(self).spec_next_key() == old(self).spec_next_key(),
            r is Ok <==> old(self).spec_can_alloc(reqs.size, reqs.alignment),
            r matches Ok(m) ==> {
                &&& m.spec_offset() == spec_round_up(
                    old(self).spec_pool_used() as int,
                    reqs.alignment as int,
                )
                &&& m.spec_offset() % reqs.alignment == 0
                &&& m.spec_size() == reqs.size
                &&& final(self).spec_pool_used() == m.spec_offset() + reqs.size
            },
            r is Err ==> r == Err::<MemAlloc, OomError>(OomError::OutOfDeviceMemory)
                && *final(self) == *old(self),
    {
        let used = self.pool_used;
        let align = reqs.alignment;
        let rem = used % align;
        let pad = if rem == 0 {
            0
        } else {
            align - rem
        };
        proof {
            vstd::arithmetic::div_mod::lemma_mod_bound(used as int, align as int);
        }
        if pad > self.pool_capacity - used {
            return Err(OomError::OutOfDeviceMemory);
        }
        let offset = used + pad;
        proof {
            assert(offset as int == spec_round_up(used as int, align as int));
            assert(offset % align == 0) by (nonlinear_arith)
                requires
                    align >= 1,
                    rem == used % align,
                    pad == (if rem == 0 { 0u64 } else { (align - rem) as u64 }),
                    offset == used + pad,
            ;
        }
        if reqs.size > self.pool_capacity - offset {
            return Err(OomError::OutOfDeviceMemory);
        }
        self.pool_used = offset + reqs.size;
        Ok(MemAlloc { offset, size: reqs.size })
    }
}

} // verus!
