//! The upload path, bottom to top: a phased builder — configuring,
//! staged, recorded — whose one-way transitions are separate types, and
//! the two public entry points that build an image resource from host
//! pixels or from an existing staging buffer and hand back the resource
//! together with the completion future of its upload.

use vstd::prelude::*;
use crate::buffer::BufferUsage;
use crate::buffer::CpuAccessibleBuffer;
use crate::command_buffer::record_upload;
use crate::command_buffer::TextureUpload;
use crate::command_buffer::UploadToken;
use crate::device::ALLOC_ALIGNMENT;
use crate::device::Device;
use crate::device::Queue;
use crate::device::QueueFamily;
use crate::errors::ImageCreationError;
use crate::errors::OomError;
use crate::errors::StageError;
use crate::fence_future::FenceFuture;
use crate::fence_future::FenceState;
use crate::image_types::Dimensions;
use crate::image_types::FormatDesc;
use crate::image_types::ImageLayout;
use crate::image_types::ImageUsage;
use crate::image_types::MipmapsCount;
use crate::immutable::spec_family_ids;
use crate::immutable::spec_sharing_for;
use crate::immutable::ImmutableImage;

verus! {

impl<F: FormatDesc> ImmutableImage<F> {
    /// Builds an immutable image holding a copy of the data in
    /// `source`, records and submits the upload, and returns the
    /// still-uninitialized resource together with the completion future
    /// of the upload. Fails, leaving the device untouched, when the
    /// device is lost, the dimensions are beyond the device limits, or
    /// the pool cannot hold the image.
    pub fn from_buffer<P>(
        source: CpuAccessibleBuffer<P>,
        dimensions: Dimensions,
        format: F,
        device: &mut Device,
        queue: &Queue,
    ) -> (r: Result<(ImmutableImage<F>, FenceFuture<UploadToken>), ImageCreationError>)
        requires
            old(device).wf(),
            old(device).spec_next_key() < u64::MAX,
        ensures
            final(device).wf(),
            old(device).same_device(*final(device)),
            r is Ok <==> !old(device).spec_lost() && dimensions.spec_supported() && old(
                device,
            ).spec_can_alloc(dimensions.spec_texel_count() as u64, ALLOC_ALIGNMENT),
            old(device).spec_lost() ==> (r matches Err(e) && e
                == ImageCreationError::SubmissionFailure),
            !old(device).spec_lost() && !dimensions.spec_supported() ==> (r matches Err(e) && e
                == (ImageCreationError::UnsupportedDimensions { dimensions })),
            !old(device).spec_lost() && dimensions.spec_supported() && !old(device).spec_can_alloc(
                dimensions.spec_texel_count() as u64,
                ALLOC_ALIGNMENT,
            ) ==> (r matches Err(e) && e == ImageCreationError::AllocationFailure(
                OomError::OutOfDeviceMemory,
            )),
            r is Err ==> *final(device) == *old(device),
            r matches Ok(p) ==> {
                &&& p.0.wf()
                &&& !p.0.spec_initialized()
                &&& p.0.spec_dimensions() == dimensions
                &&& p.0.spec_format_desc() == format
                &&& p.0.spec_layout() == ImageLayout::ShaderReadOnlyOptimal
                &&& p.0.spec_mipmap_levels() == 1
                &&& p.0.spec_key() == old(device).spec_next_key()
                &&& spec_sharing_for(old(device).spec_families(), p.0.spec_sharing())
                &&& p.1.spec_fence().spec_state() == FenceState::Signaled
                &&& p.1.spec_output() matches Some(t) && t.spec_image_key() == p.0.spec_key()
                &&& !p.1.resolved()
                &&& final(device).spec_next_key() == old(device).spec_next_key() + 1
                &&& final(device).spec_pool_used() == crate::device::spec_round_up(
                    old(device).spec_pool_used() as int,
                    ALLOC_ALIGNMENT as int,
                ) + dimensions.spec_texel_count()
            },
    {
        if device.is_lost() {
            return Err(ImageCreationError::SubmissionFailure);
        }
        let families = device.active_queue_families();
        proof {
            assert(spec_family_ids(families@) =~= old(device).spec_families());
        }
        let usage = ImageUsage { transfer_source: false, transfer_destination: true, sampled: true };
        let layout = ImageLayout::ShaderReadOnlyOptimal;
        let image = match ImmutableImage::uninitialized(
            device,
            dimensions,
            format,
            MipmapsCount::One,
            usage,
            layout,
            families,
        ) {
            Ok(i) => i,
            Err(e) => {
                return Err(e);
            },
        };
        let upload = match record_upload(
            device,
            queue.family(),
            source.key(),
            image.conflict_key(),
            dimensions,
        ) {
            Ok(u) => u,
            Err(_) => {
                proof {
                    assert(false);
                }
                return Err(ImageCreationError::SubmissionFailure);
            },
        };
        let fut = match upload.submit_upload(device, queue) {
            Ok(f) => f,
            Err(_) => {
                proof {
                    assert(false);
                }
                return Err(ImageCreationError::SubmissionFailure);
            },
        };
        Ok((image, fut))
    }

    /// Builds an immutable image from the supplied pixel values: stages
    /// them into a transfer-source buffer, then proceeds as
    /// `from_buffer`. The staged buffer holds exactly the supplied
    /// elements, in order; both allocations are validated up front, so a
    /// failed build leaves the device untouched.
    pub fn from_iter<P>(
        pixels: Vec<P>,
        dimensions: Dimensions,
        format: F,
        device: &mut Device,
        queue: &Queue,
    ) -> (r: Result<(ImmutableImage<F>, FenceFuture<UploadToken>), ImageCreationError>)
        requires
            old(device).wf(),
            old(device).spec_next_key() < u64::MAX - 1,
        ensures
            final(device).wf(),
            old(device).same_device(*final(device)),
            r is Ok <==> !old(device).spec_lost() && dimensions.spec_supported() && old(
                device,
            ).spec_can_alloc_pair(pixels@.len() as u64, dimensions.spec_texel_count() as u64),
            old(device).spec_lost() ==> (r matches Err(e) && e
                == ImageCreationError::SubmissionFailure),
            !old(device).spec_lost() && !dimensions.spec_supported() ==> (r matches Err(e) && e
                == (ImageCreationError::UnsupportedDimensions { dimensions })),
            !old(device).spec_lost() && dimensions.spec_supported() && !old(
                device,
            ).spec_can_alloc_pair(pixels@.len() as u64, dimensions.spec_texel_count() as u64)
                ==> (r matches Err(e) && e == ImageCreationError::AllocationFailure(
                OomError::OutOfDeviceMemory,
            )),
            r is Err ==> *final(device) == *old(device),
            r matches Ok(p) ==> {
                &&& p.0.wf()
                &&& !p.0.spec_initialized()
                &&& p.0.spec_dimensions() == dimensions
                &&& p.0.spec_format_desc() == format
                &&& p.0.spec_layout() == ImageLayout::ShaderReadOnlyOptimal
                &&& p.0.spec_mipmap_levels() == 1
                &&& p.0.spec_key() == old(device).spec_next_key() + 1
                &&& spec_sharing_for(old(device).spec_families(), p.0.spec_sharing())
                &&& p.1.spec_fence().spec_state() == FenceState::Signaled
                &&& p.1.spec_output() matches Some(t) && t.spec_image_key() == p.0.spec_key()
                &&& !p.1.resolved()
                &&& final(device).spec_next_key() == old(device).spec_next_key() + 2
            },
    {
        if device.is_lost() {
            return Err(ImageCreationError::SubmissionFailure);
        }
        if !dimensions.supported() {
            return Err(ImageCreationError::UnsupportedDimensions { dimensions });
        }
        let texels = dimensions.texel_count();
        let staging: u64 = pixels.len() as u64;
        if !device.can_allocate_pair(staging, texels) {
            return Err(ImageCreationError::AllocationFailure(OomError::OutOfDeviceMemory));
        }
        let source = match CpuAccessibleBuffer::from_iter(
            device,
            BufferUsage::transfer_source(),
            false,
            pixels,
        ) {
            Ok(b) => b,
            Err(_) => {
                proof {
                    assert(false);
                }
                return Err(ImageCreationError::AllocationFailure(OomError::OutOfDeviceMemory));
            },
        };
        ImmutableImage::from_buffer(source, dimensions, format, device, queue)
    }
}

/// The configuring phase of an upload: dimensions and format may still
/// be set; staging moves to the next phase. A later setter call
/// overwrites an earlier one.
pub struct TextureUploadBuilder<F> {
    queue_family: QueueFamily,
    dimensions: Option<Dimensions>,
    format: Option<F>,
}

impl<F: FormatDesc> TextureUploadBuilder<F> {
    pub closed spec fn spec_queue_family(self) -> QueueFamily {
        self.queue_family
    }

    pub closed spec fn spec_dimensions(self) -> Option<Dimensions> {
        self.dimensions
    }

    pub closed spec fn spec_format(self) -> Option<F> {
        self.format
    }

    /// Opens a builder in the configuring phase, bound to the queue's
    /// family.
    pub fn new(queue: &Queue) -> (r: Result<TextureUploadBuilder<F>, OomError>)
        ensures
            r matches Ok(b) ==> {
                &&& b.spec_queue_family().id == queue.spec_family()
                &&& b.spec_dimensions() is None
                &&& b.spec_format() is None
            },
            r is Ok,
    {
        Ok(TextureUploadBuilder { queue_family: queue.family(), dimensions: None, format: None })
    }

    /// Sets the dimensions of the image to be built.
    pub fn dimensions(self, dimensions: Dimensions) -> (r: TextureUploadBuilder<F>)
        ensures
            r.spec_queue_family() == self.spec_queue_family(),
            r.spec_dimensions() == Some(dimensions),
            r.spec_format() == self.spec_format(),
    {
        TextureUploadBuilder { dimensions: Some(dimensions), ..self }
    }

    /// Sets the format of the image to be built.
    pub fn format(self, format: F) -> (r: TextureUploadBuilder<F>)
        ensures
            r.spec_queue_family() == self.spec_queue_family(),
            r.spec_dimensions() == self.spec_dimensions(),
            r.spec_format() == Some(format),
    {
        TextureUploadBuilder { format: Some(format), ..self }
    }

    /// Stages the pixel values into a transfer-source buffer and leaves
    /// the configuring phase: the staged upload holds exactly the
    /// supplied elements, in order. Fails if dimensions or format are
    /// still unset, or if the pool cannot hold the buffer; a failed
    /// staging leaves the device untouched.
    pub fn stage<P>(self, device: &mut Device, pixels: Vec<P>) -> (r: Result<
        StagedUpload<P, F>,
        StageError,
    >)
        requires
            old(device).wf(),
            old(device).spec_next_key() < u64::MAX,
        ensures
            final(device).wf(),
            old(device).same_device(*final(device)),
            r is Ok <==> self.spec_dimensions() is Some && self.spec_format() is Some && old(
                device,
            ).spec_can_alloc(pixels@.len() as u64, 1),
            (self.spec_dimensions() is None || self.spec_format() is None) ==> (r matches Err(
                e,
            ) && e == StageError::ConfigurationIncomplete),
            self.spec_dimensions() is Some && self.spec_format() is Some && !old(
                device,
            ).spec_can_alloc(pixels@.len() as u64, 1) ==> (r matches Err(e) && e
                == StageError::AllocationFailure(OomError::OutOfDeviceMemory)),
            r is Err ==> *final(device) == *old(device),
            r matches Ok(s) ==> {
                &&& s.spec_queue_family() == self.spec_queue_family()
                &&& Some(s.spec_dimensions()) == self.spec_dimensions()
                &&& Some(s.spec_format()) == self.spec_format()
                &&& s.spec_buffer().contents() == pixels@
                &&& s.spec_buffer().spec_key() == old(device).spec_next_key()
                &&& final(device).spec_next_key() == old(device).spec_next_key() + 1
                &&& final(device).spec_pool_used() == old(device).spec_pool_used()
                    + pixels@.len()
            },
    {
        let dimensions = match self.dimensions {
            Some(d) => d,
            None => {
                return Err(StageError::ConfigurationIncomplete);
            },
        };
        let format = match self.format {
            Some(f) => f,
            None => {
                return Err(StageError::ConfigurationIncomplete);
            },
        };
        let buffer = match CpuAccessibleBuffer::from_iter(
            device,
            BufferUsage::transfer_source(),
            false,
            pixels,
        ) {
            Ok(b) => b,
            Err(e) => {
                return Err(StageError::AllocationFailure(e));
            },
        };
        Ok(StagedUpload { queue_family: self.queue_family, dimensions, format, buffer })
    }
}

/// The staged phase of an upload: the host data sits in a
/// transfer-source buffer; recording the copy closes the upload into a
/// submittable sequence. Reconfiguring is no longer possible.
pub struct StagedUpload<P, F> {
    queue_family: QueueFamily,
    dimensions: Dimensions,
    format: F,
    buffer: CpuAccessibleBuffer<P>,
}

impl<P, F: FormatDesc> StagedUpload<P, F> {
    pub closed spec fn spec_queue_family(self) -> QueueFamily {
        self.queue_family
    }

    pub closed spec fn spec_dimensions(self) -> Dimensions {
        self.dimensions
    }

    pub closed spec fn spec_format(self) -> F {
        self.format
    }

    pub closed spec fn spec_buffer(self) -> CpuAccessibleBuffer<P> {
        self.buffer
    }

    /// The staging buffer, for host-side inspection.
    pub fn buffer(&self) -> (r: &CpuAccessibleBuffer<P>)
        ensures
            *r == self.spec_buffer(),
    {
        &self.buffer
    }

    /// Allocates the destination image uninitialized, records exactly
    /// one copy command covering the image whole, and closes the
    /// sequence. The staging buffer's ownership passes to the returned
    /// sequence. Fails, leaving the device untouched, when the
    /// dimensions are beyond the device limits or the pool cannot hold
    /// the image.
    pub fn build(self, device: &mut Device) -> (r: Result<
        (ImmutableImage<F>, TextureUpload),
        ImageCreationError,
    >)
        requires
            old(device).wf(),
            old(device).spec_next_key() < u64::MAX,
        ensures
            final(device).wf(),
            old(device).same_device(*final(device)),
            r is Ok <==> self.spec_dimensions().spec_supported() && old(device).spec_can_alloc(
                self.spec_dimensions().spec_texel_count() as u64,
                ALLOC_ALIGNMENT,
            ),
            !self.spec_dimensions().spec_supported() ==> (r matches Err(e) && e
                == (ImageCreationError::UnsupportedDimensions {
                dimensions: self.spec_dimensions(),
            })),
            self.spec_dimensions().spec_supported() && !old(device).spec_can_alloc(
                self.spec_dimensions().spec_texel_count() as u64,
                ALLOC_ALIGNMENT,
            ) ==> (r matches Err(e) && e == ImageCreationError::AllocationFailure(
                OomError::OutOfDeviceMemory,
            )),
            r is Err ==> *final(device) == *old(device),
            r matches Ok(p) ==> {
                &&& p.0.wf()
                &&& !p.0.spec_initialized()
                &&& p.0.spec_dimensions() == self.spec_dimensions()
                &&& p.0.spec_format_desc() == self.spec_format()
                &&& p.0.spec_layout() == ImageLayout::ShaderReadOnlyOptimal
                &&& p.0.spec_mipmap_levels() == 1
                &&& p.0.spec_key() == old(device).spec_next_key()
                &&& spec_sharing_for(old(device).spec_families(), p.0.spec_sharing())
                &&& p.1.spec_image_key() == p.0.spec_key()
                &&& p.1.spec_inner().spec_commands() == seq![
                    (crate::command_buffer::Command::CopyBufferToImage {
                        source_key: self.spec_buffer().spec_key(),
                        dest_key: p.0.spec_key(),
                        dest_layout: ImageLayout::TransferDstOptimal,
                        region: crate::command_buffer::spec_full_copy_region(
                            self.spec_dimensions(),
                        ),
                    }),
                ]
                &&& p.1.spec_inner().spec_kind() == crate::command_buffer::Kind::Primary
                &&& p.1.spec_inner().spec_flags() == crate::command_buffer::Flags::OneTimeSubmit
                &&& p.1.spec_inner().spec_pool_family() == self.spec_queue_family().id
                &&& final(device).spec_next_key() == old(device).spec_next_key() + 1
            },
    {
        let families = device.active_queue_families();
        proof {
            assert(spec_family_ids(families@) =~= old(device).spec_families());
        }
        let usage = ImageUsage { transfer_source: false, transfer_destination: true, sampled: true };
        let image = match ImmutableImage::uninitialized(
            device,
            self.dimensions,
            self.format,
            MipmapsCount::One,
            usage,
            ImageLayout::ShaderReadOnlyOptimal,
            families,
        ) {
            Ok(i) => i,
            Err(e) => {
                return Err(e);
            },
        };
        let upload = match record_upload(
            device,
            self.queue_family,
            self.buffer.key(),
            image.conflict_key(),
            self.dimensions,
        ) {
            Ok(u) => u,
            Err(_) => {
                proof {
                    assert(false);
                }
                return Err(ImageCreationError::SubmissionFailure);
            },
        };
        Ok((image, upload))
    }
}

} // verus!
