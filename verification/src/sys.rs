//! The raw device objects behind an image resource: the image object
//! itself, with its identity key, creation attributes and memory-binding
//! state, and a view over a range of its mipmap levels and array layers.

use vstd::prelude::*;
use crate::device::ALLOC_ALIGNMENT;
use crate::device::Device;
use crate::device::MemReqs;
use crate::errors::ImageCreationError;
use crate::image_types::Dimensions;
use crate::image_types::Format;
use crate::image_types::ImageUsage;
use crate::image_types::MipmapsCount;
use crate::image_types::Sharing;

verus! {

/// A raw device image object. Its identity key is drawn from the
/// device's counter at creation and never changes; equality and conflict
/// detection of higher-level handles go by this key alone.
pub struct UnsafeImage {
    key: u64,
    usage: ImageUsage,
    format: Format,
    dimensions: Dimensions,
    samples: u32,
    mipmap_levels: u32,
    sharing: Sharing,
    bound: bool,
}

/// The device accepts an image creation request: the extent is within
/// the device limits and the level and sample counts are nonzero.
pub open spec fn spec_creation_supported(
    dimensions: Dimensions,
    mipmaps: MipmapsCount,
    samples: u32,
) -> bool {
    &&& dimensions.spec_supported()
    &&& mipmaps.spec_count() >= 1
    &&& samples >= 1
}

/// What an image of these dimensions requires of its memory: one unit
/// per texel, at the device's image alignment.
pub open spec fn spec_image_mem_reqs(dimensions: Dimensions) -> MemReqs {
    MemReqs { size: dimensions.spec_texel_count() as u64, alignment: ALLOC_ALIGNMENT }
}

impl UnsafeImage {
    pub closed spec fn spec_key(self) -> u64 {
        self.key
    }

    pub closed spec fn spec_usage(self) -> ImageUsage {
        self.usage
    }

    pub closed spec fn spec_format(self) -> Format {
        self.format
    }

    pub closed spec fn spec_dimensions(self) -> Dimensions {
        self.dimensions
    }

    pub closed spec fn spec_samples(self) -> u32 {
        self.samples
    }

    pub closed spec fn spec_mipmap_levels(self) -> u32 {
        self.mipmap_levels
    }

    pub closed spec fn spec_sharing(self) -> Sharing {
        self.sharing
    }

    /// Memory has been bound to the image.
    pub closed spec fn spec_bound(self) -> bool {
        self.bound
    }

    /// Creates a raw image object, not yet backed by memory, and reports
    /// what it requires of that memory. Fails, leaving the device
    /// untouched, exactly when the request is beyond the device limits;
    /// otherwise the image takes the next identity key.
    pub fn new(
        device: &mut Device,
        usage: ImageUsage,
        format: Format,
        dimensions: Dimensions,
        samples: u32,
        mipmaps: MipmapsCount,
        sharing: Sharing,
    ) -> (r: Result<(UnsafeImage, MemReqs), ImageCreationError>)
        requires
            old(device).spec_next_key() < u64::MAX,
        ensures
            old(device).same_device(*final(device)),
            final(device).spec_pool_used() == old(device).spec_pool_used(),
            old(device).wf() ==> final(device).wf(),
            r is Ok <==> spec_creation_supported(dimensions, mipmaps, samples),
            r matches Ok(p) ==> {
                &&& p.0.spec_key() == old(device).spec_next_key()
                &&& final(device).spec_next_key() == old(device).spec_next_key() + 1
                &&& p.0.spec_usage() == usage
                &&& p.0.spec_format() == format
                &&& p.0.spec_dimensions() == dimensions
                &&& p.0.spec_samples() == samples
                &&& p.0.spec_mipmap_levels() == mipmaps.spec_count()
                &&& p.0.spec_sharing() == sharing
                &&& !p.0.spec_bound()
                &&& p.1 == spec_image_mem_reqs(dimensions)
            },
            r is Err ==> r == Err::<(UnsafeImage, MemReqs), ImageCreationError>(
                ImageCreationError::UnsupportedDimensions { dimensions },
            ) && *final(device) == *old(device),
    {
        if !(dimensions.supported() && mipmaps.count() >= 1 && samples >= 1) {
            return Err(ImageCreationError::UnsupportedDimensions { dimensions });
        }
        let key = device.allocate_key();
        let reqs = MemReqs { size: dimensions.texel_count(), alignment: ALLOC_ALIGNMENT };
        let levels = mipmaps.count();
        Ok(
            (
                UnsafeImage {
                    key,
                    usage,
                    format,
                    dimensions,
                    samples,
                    mipmap_levels: levels,
                    sharing,
                    bound: false,
                },
                reqs,
            ),
        )
    }

    /// Binds allocated memory to the image. The offset must already have
    /// been validated against the image's alignment requirement.
    pub fn bind_memory(&mut self, offset: u64)
        requires
            !old(self).spec_bound(),
            offset % ALLOC_ALIGNMENT == 0,
        ensures
            final(self).spec_bound(),
            final(self).spec_key() == old(self).spec_key(),
            final(self).spec_usage() == old(self).spec_usage(),
            final(self).spec_format() == old(self).spec_format(),
            final(self).spec_dimensions() == old(self).spec_dimensions(),
            final(self).spec_samples() == old(self).spec_samples(),
            final(self).spec_mipmap_levels() == old(self).spec_mipmap_levels(),
            final(self).spec_sharing() == old(self).spec_sharing(),
    {
        self.bound = true;
    }

    pub fn key(&self) -> (r: u64)
        ensures
            r == self.spec_key(),
    {
        self.key
    }

    pub fn dimensions(&self) -> (r: Dimensions)
        ensures
            r == self.spec_dimensions(),
    {
        self.dimensions
    }

    pub fn mipmap_levels(&self) -> (r: u32)
        ensures
            r == self.spec_mipmap_levels(),
    {
        self.mipmap_levels
    }

    pub fn sharing(&self) -> (r: &Sharing)
        ensures
            *r == self.spec_sharing(),
    {
        &self.sharing
    }
}

/// A view over the whole of an image: every mipmap level and every array
/// layer, starting at level zero and layer zero.
pub struct UnsafeImageView {
    image_key: u64,
    mipmap_levels: u32,
    array_layers: u32,
}

impl UnsafeImageView {
    pub closed spec fn spec_image_key(self) -> u64 {
        self.image_key
    }

    pub closed spec fn spec_mipmap_levels(self) -> u32 {
        self.mipmap_levels
    }

    pub closed spec fn spec_array_layers(self) -> u32 {
        self.array_layers
    }

    /// Creates a view covering the image whole. The image must already
    /// be backed by memory.
    pub fn raw(image: &UnsafeImage) -> (r: UnsafeImageView)
        requires
            image.spec_bound(),
        ensures
            r.spec_image_key() == image.spec_key(),
            r.spec_mipmap_levels() == image.spec_mipmap_levels(),
            r.spec_array_layers() == image.spec_dimensions().array_layers,
    {
        UnsafeImageView {
            image_key: image.key(),
            mipmap_levels: image.mipmap_levels(),
            array_layers: image.dimensions().array_layers,
        }
    }
}

} // verus!
