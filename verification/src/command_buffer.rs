//! Command sequences for the upload path: a pool keyed by queue family,
//! a builder that records buffer-to-image copies, the closed sequence,
//! and the submittable `TextureUpload` whose completion future carries a
//! token naming the image the upload initializes.

use vstd::prelude::*;
use crate::device::Device;
use crate::device::Queue;
use crate::device::QueueFamily;
use crate::errors::OomError;
use crate::errors::SubmissionError;
use crate::fence_future::Fence;
use crate::fence_future::FenceFuture;
use crate::fence_future::FenceState;
use crate::image_types::Dimensions;
use crate::image_types::ImageLayout;

verus! {

/// Whether a command sequence may be submitted on its own or only from
/// within another sequence.
#[derive(Clone, Copy, Debug, PartialEq, Eq, Structural)]
pub enum Kind {
    Primary,
    Secondary,
}

impl Kind {
    pub fn primary() -> (k: Kind)
        ensures
            k == Kind::Primary,
    {
        Kind::Primary
    }
}

/// How often a command sequence may be submitted.
#[derive(Clone, Copy, Debug, PartialEq, Eq, Structural)]
pub enum Flags {
    OneTimeSubmit,
    MultipleSubmit,
    SimultaneousUse,
}

/// A command pool tied to one queue family; sequences recorded from it
/// are submittable to queues of that family.
#[derive(Clone, Copy, Debug, PartialEq, Eq, Structural)]
pub struct StandardCommandPool {
    queue_family: u32,
}

impl StandardCommandPool {
    pub closed spec fn spec_queue_family(self) -> u32 {
        self.queue_family
    }
}

impl Device {
    /// The device's command pool for the given queue family.
    pub fn standard_command_pool(&self, family: QueueFamily) -> (p: StandardCommandPool)
        ensures
            p.spec_queue_family() == family.id,
    {
        StandardCommandPool { queue_family: family.id }
    }
}

/// One region of a buffer-to-image copy: where in the buffer it starts,
/// where in the image it lands, and how much it covers.
#[derive(Clone, Copy, Debug, PartialEq, Eq, Structural)]
pub struct BufferImageCopyRegion {
    pub buffer_offset: u64,
    pub image_offset_x: u32,
    pub image_offset_y: u32,
    pub image_offset_z: u32,
    pub extent_width: u32,
    pub extent_height: u32,
    pub extent_depth: u32,
    pub mip_level: u32,
    pub first_array_layer: u32,
    pub num_array_layers: u32,
}

/// The region an upload always copies: offset zero, the full extent,
/// mipmap level zero, every array layer.
pub open spec fn spec_full_copy_region(dimensions: Dimensions) -> BufferImageCopyRegion {
    BufferImageCopyRegion {
        buffer_offset: 0,
        image_offset_x: 0,
        image_offset_y: 0,
        image_offset_z: 0,
        extent_width: dimensions.width,
        extent_height: dimensions.height,
        extent_depth: dimensions.depth,
        mip_level: 0,
        first_array_layer: 0,
        num_array_layers: dimensions.array_layers,
    }
}

/// One recorded command.
#[derive(Clone, Copy, Debug, PartialEq, Eq, Structural)]
pub enum Command {
    CopyBufferToImage {
        source_key: u64,
        dest_key: u64,
        dest_layout: ImageLayout,
        region: BufferImageCopyRegion,
    },
}

/// Records commands into a sequence; `build` closes the sequence for
/// further edits.
pub struct UnsafeCommandBufferBuilder {
    pool_family: u32,
    kind: Kind,
    flags: Flags,
    commands: Vec<Command>,
}

impl UnsafeCommandBufferBuilder {
    pub closed spec fn spec_pool_family(self) -> u32 {
        self.pool_family
    }

    pub closed spec fn spec_kind(self) -> Kind {
        self.kind
    }

    pub closed spec fn spec_flags(self) -> Flags {
        self.flags
    }

    pub closed spec fn spec_commands(self) -> Seq<Command> {
        self.commands@
    }

    /// Opens an empty sequence on the given pool.
    pub fn new(pool: &StandardCommandPool, kind: Kind, flags: Flags) -> (r: Result<
        UnsafeCommandBufferBuilder,
        OomError,
    >)
        ensures
            r matches Ok(b) ==> {
                &&& b.spec_pool_family() == pool.spec_queue_family()
                &&& b.spec_kind() == kind
                &&& b.spec_flags() == flags
                &&& b.spec_commands() == Seq::<Command>::empty()
            },
            r is Ok,
    {
        Ok(
            UnsafeCommandBufferBuilder {
                pool_family: pool.queue_family,
                kind,
                flags,
                commands: Vec::new(),
            },
        )
    }

    /// Appends one buffer-to-image copy command.
    pub fn copy_buffer_to_image(
        &mut self,
        source_key: u64,
        dest_key: u64,
        dest_layout: ImageLayout,
        region: BufferImageCopyRegion,
    )
        ensures
            final(self).spec_pool_family() == old(self).spec_pool_family(),
            final(self).spec_kind() == old(self).spec_kind(),
            final(self).spec_flags() == old(self).spec_flags(),
            final(self).spec_commands() == old(self).spec_commands().push(
                (Command::CopyBufferToImage { source_key, dest_key, dest_layout, region }),
            ),
    {
        self.commands.push(Command::CopyBufferToImage { source_key, dest_key, dest_layout, region });
    }

    /// Closes the sequence.
    pub fn build(self) -> (cb: UnsafeCommandBuffer)
        ensures
            cb.spec_pool_family() == self.spec_pool_family(),
            cb.spec_kind() == self.spec_kind(),
            cb.spec_flags() == self.spec_flags(),
            cb.spec_commands() == self.spec_commands(),
    {
        UnsafeCommandBuffer {
            pool_family: self.pool_family,
            kind: self.kind,
            flags: self.flags,
            commands: self.commands,
        }
    }
}

/// A closed command sequence, ready for submission.
pub struct UnsafeCommandBuffer {
    pool_family: u32,
    kind: Kind,
    flags: Flags,
    commands: Vec<Command>,
}

impl UnsafeCommandBuffer {
    pub closed spec fn spec_pool_family(self) -> u32 {
        self.pool_family
    }

    pub closed spec fn spec_kind(self) -> Kind {
        self.kind
    }

    pub closed spec fn spec_flags(self) -> Flags {
        self.flags
    }

    pub closed spec fn spec_commands(self) -> Seq<Command> {
        self.commands@
    }

    pub fn kind(&self) -> (r: Kind)
        ensures
            r == self.spec_kind(),
    {
        self.kind
    }

    /// Hands the sequence to the queue. The modeled device executes it
    /// synchronously: on a healthy device the returned completion signal
    /// is already signaled; a lost device refuses the submission.
    pub fn execute(self, device: &Device, queue: &Queue) -> (r: Result<Fence, SubmissionError>)
        ensures
            r is Ok <==> !device.spec_lost(),
            r matches Ok(f) ==> f.spec_state() == FenceState::Signaled,
            r is Err ==> r == Err::<Fence, SubmissionError>(SubmissionError::DeviceLost),
    {
        if device.is_lost() {
            Err(SubmissionError::DeviceLost)
        } else {
            Ok(Fence::new(device, true))
        }
    }
}

/// Proof that the upload of the image named by the key has completed on
/// the device: carried by the upload future and handed to
/// `mark_initialized` after the future resolves.
#[derive(Clone, Copy, Debug, PartialEq, Eq, Structural)]
pub struct UploadToken {
    image_key: u64,
}

impl UploadToken {
    pub closed spec fn spec_image_key(self) -> u64 {
        self.image_key
    }

    pub fn image_key(&self) -> (r: u64)
        ensures
            r == self.spec_image_key(),
    {
        self.image_key
    }
}

/// A command sequence that may be submitted to a queue, yielding a
/// completion future for it.
pub trait CommandBuffer<F>: Sized {
    /// Enqueues the sequence on the queue and returns the future that
    /// resolves when the device has finished it.
    fn enqueue(self, device: &Device, queue: &Queue) -> Result<F, SubmissionError>;

    /// Submits the sequence to the queue and returns the future that
    /// resolves when the device has finished it.
    fn submit(self, device: &Device, queue: &Queue) -> Result<F, SubmissionError>;
}

/// The recorded upload sequence for one image: the copy commands plus
/// the key of the image they initialize.
pub struct TextureUpload {
    inner: UnsafeCommandBuffer,
    image_key: u64,
}

impl TextureUpload {
    pub closed spec fn spec_inner(self) -> UnsafeCommandBuffer {
        self.inner
    }

    pub closed spec fn spec_image_key(self) -> u64 {
        self.image_key
    }

    /// Submits the sequence; the future's payload is the token for the
    /// uploaded image.
    pub fn submit_upload(self, device: &Device, queue: &Queue) -> (r: Result<
        FenceFuture<UploadToken>,
        SubmissionError,
    >)
        ensures
            r is Ok <==> !device.spec_lost(),
            r matches Ok(f) ==> {
                &&& f.spec_fence().spec_state() == FenceState::Signaled
                &&& f.spec_output() matches Some(t) && t.spec_image_key()
                    == self.spec_image_key()
                &&& !f.resolved()
            },
            r is Err ==> r == Err::<FenceFuture<UploadToken>, SubmissionError>(
                SubmissionError::DeviceLost,
            ),
    {
        let key = self.image_key;
        let fence = match self.inner.execute(device, queue) {
            Ok(f) => f,
            Err(e) => {
                return Err(e);
            },
        };
        Ok(FenceFuture::new(fence, UploadToken { image_key: key }))
    }
}

impl CommandBuffer<FenceFuture<UploadToken>> for TextureUpload {
    fn enqueue(self, device: &Device, queue: &Queue) -> Result<
        FenceFuture<UploadToken>,
        SubmissionError,
    > {
        self.submit_upload(device, queue)
    }

    fn submit(self, device: &Device, queue: &Queue) -> Result<
        FenceFuture<UploadToken>,
        SubmissionError,
    > {
        self.submit_upload(device, queue)
    }
}

/// Records the upload sequence for one image: a primary, one-time-submit
/// sequence holding exactly one copy command that covers the image
/// whole, with the transfer-destination layout fixed.
pub fn record_upload(
    device: &Device,
    family: QueueFamily,
    source_key: u64,
    image_key: u64,
    dimensions: Dimensions,
) -> (r: Result<TextureUpload, OomError>)
    ensures
        r matches Ok(tu) ==> {
            &&& tu.spec_image_key() == image_key
            &&& tu.spec_inner().spec_kind() == Kind::Primary
            &&& tu.spec_inner().spec_flags() == Flags::OneTimeSubmit
            &&& tu.spec_inner().spec_pool_family() == family.id
            &&& tu.spec_inner().spec_commands() == seq![
                (Command::CopyBufferToImage {
                    source_key,
                    dest_key: image_key,
                    dest_layout: ImageLayout::TransferDstOptimal,
                    region: spec_full_copy_region(dimensions),
                }),
            ]
        },
        r is Ok,
{
    let pool = device.standard_command_pool(family);
    let mut builder = match UnsafeCommandBufferBuilder::new(&pool, Kind::primary(), Flags::OneTimeSubmit) {
        Ok(b) => b,
        Err(e) => {
            return Err(e);
        },
    };
    let (w, h, d) = dimensions.width_height_depth();
    let region = BufferImageCopyRegion {
        buffer_offset: 0,
        image_offset_x: 0,
        image_offset_y: 0,
        image_offset_z: 0,
        extent_width: w,
        extent_height: h,
        extent_depth: d,
        mip_level: 0,
        first_array_layer: 0,
        num_array_layers: dimensions.array_layers_with_cube(),
    };
    builder.copy_buffer_to_image(source_key, image_key, ImageLayout::TransferDstOptimal, region);
    Ok(TextureUpload { inner: builder.build(), image_key })
}

} // verus!
