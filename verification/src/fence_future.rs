//! The completion signal and the future built over it.
//!
//! A `Fence` is a device-timeline marker with a query-only ready
//! predicate. A `FenceFuture` pairs a fence with an owned payload that is
//! handed out exactly once, on the first poll that observes the fence
//! signaled. Polling a resolved future is ruled out by contract, not by a
//! runtime check: after `Ready` or `Failed` the future may not be polled
//! again.

use vstd::prelude::*;
use crate::device::Device;
use crate::errors::OomError;

verus! {

/// The state of a completion signal. It is created signaled or
/// unsignaled; a fence allocated from a lost device reports an error on
/// every query.
#[derive(Clone, Copy, Debug, PartialEq, Eq, Structural)]
pub enum FenceState {
    Unsignaled,
    Signaled,
    Lost(OomError),
}

/// A device-side completion signal with a non-blocking ready query.
#[derive(Clone, Copy, Debug, PartialEq, Eq, Structural)]
pub struct Fence {
    state: FenceState,
}

impl Fence {
    pub closed spec fn spec_state(self) -> FenceState {
        self.state
    }

    /// Allocates a fence, signaled or unsignaled as asked. On a lost
    /// device the fence is born in the failing state: every query on it
    /// reports the device's error.
    pub fn new(device: &Device, signaled: bool) -> (f: Fence)
        ensures
            f.spec_state() == if device.spec_lost() {
                FenceState::Lost(OomError::OutOfDeviceMemory)
            } else if signaled {
                FenceState::Signaled
            } else {
                FenceState::Unsignaled
            },
    {
        if device.is_lost() {
            Fence { state: FenceState::Lost(OomError::OutOfDeviceMemory) }
        } else if signaled {
            Fence { state: FenceState::Signaled }
        } else {
            Fence { state: FenceState::Unsignaled }
        }
    }

    /// Allocates a fence that is already signaled.
    pub fn alloc_signaled(device: &Device) -> (f: Fence)
        ensures
            f.spec_state() == if device.spec_lost() {
                FenceState::Lost(OomError::OutOfDeviceMemory)
            } else {
                FenceState::Signaled
            },
    {
        Fence::new(device, true)
    }

    /// The non-blocking ready query: reports whether the device has
    /// finished the associated work, or the device-level error met while
    /// asking.
    pub fn ready(&self) -> (r: Result<bool, OomError>)
        ensures
            r == match self.spec_state() {
                FenceState::Unsignaled => Ok::<bool, OomError>(false),
                FenceState::Signaled => Ok::<bool, OomError>(true),
                FenceState::Lost(e) => Err::<bool, OomError>(e),
            },
    {
        match self.state {
            FenceState::Unsignaled => Ok(false),
            FenceState::Signaled => Ok(true),
            FenceState::Lost(e) => Err(e),
        }
    }
}

/// What one poll of a `FenceFuture` reports.
#[derive(Debug)]
pub enum FencePoll<T> {
    /// The fence is not signaled yet; the caller must poll again later.
    Pending,
    /// The fence is signaled; the payload is handed out, exactly once.
    Ready(T),
    /// The ready query itself failed. Terminal: the future may not be
    /// polled again and the payload is unreachable.
    Failed(OomError),
}

/// A pollable handle that resolves to its payload once the device
/// reports completion.
pub struct FenceFuture<T> {
    fence: Fence,
    output: Option<T>,
}

impl<T> FenceFuture<T> {
    pub closed spec fn spec_fence(self) -> Fence {
        self.fence
    }

    pub closed spec fn spec_output(self) -> Option<T> {
        self.output
    }

    /// The future has yielded `Ready` or `Failed`; it may not be polled
    /// again, and the payload is gone.
    pub open spec fn resolved(self) -> bool {
        self.spec_output() is None
    }

    /// Wraps a completion signal and the payload to be handed back on
    /// completion.
    pub fn new(fence: Fence, output: T) -> (f: FenceFuture<T>)
        ensures
            f.spec_fence() == fence,
            f.spec_output() == Some(output),
            !f.resolved(),
    {
        FenceFuture { fence, output: Some(output) }
    }

    pub fn is_resolved(&self) -> (r: bool)
        ensures
            r == self.resolved(),
    {
        self.output.is_none()
    }

    /// Queries the fence and resolves the future on the first observed
    /// completion. Every poll before completion yields `Pending` and
    /// changes nothing; the poll that observes the signal yields `Ready`
    /// with the payload, exactly once; a failing query yields `Failed`.
    /// Either resolution is terminal: the contract forbids polling a
    /// resolved future, so a second take is unreachable.
    pub fn poll(&mut self) -> (r: FencePoll<T>)
        requires
            !old(self).resolved(),
        ensures
            final(self).spec_fence() == old(self).spec_fence(),
            match old(self).spec_fence().spec_state() {
                FenceState::Unsignaled => {
                    &&& r is Pending
                    &&& final(self).spec_output() == old(self).spec_output()
                    &&& !final(self).resolved()
                },
                FenceState::Signaled => {
                    &&& r matches FencePoll::Ready(t) && Some(t) == old(self).spec_output()
                    &&& final(self).resolved()
                },
                FenceState::Lost(e) => {
                    &&& r matches FencePoll::Failed(got) && got == e
                    &&& final(self).resolved()
                },
            },
    {
        match self.fence.ready() {
            Ok(true) => {
                let out = self.output.take();
                match out {
                    Some(t) => FencePoll::Ready(t),
                    None => {
                        proof {
                            assert(false);
                        }
                        FencePoll::Pending
                    },
                }
            },
            Ok(false) => FencePoll::Pending,
            Err(e) => {
                self.output = None;
                FencePoll::Failed(e)
            },
        }
    }
}

} // verus!
