//! The device-resident image resource: built once by an upload, fixed
//! in dimensions, format and layout for its whole lifetime, and guarded
//! by an access-arbitration contract. The resource starts uninitialized
//! and becomes initialized exactly once, when the upload's completion
//! token is presented after the upload future resolves.

use vstd::prelude::*;
use crate::buffer::CpuAccessibleBuffer;
use crate::command_buffer::UploadToken;
use crate::device::ALLOC_ALIGNMENT;
use crate::device::Device;
use crate::device::MemAlloc;
use crate::device::QueueFamily;
use crate::errors::AccessError;
use crate::errors::ImageCreationError;
use crate::errors::OomError;
use crate::family_ids::family_ids_len;
use crate::family_ids::family_ids_new;
use crate::family_ids::family_ids_push;
use crate::family_ids::family_ids_to_vec;
use crate::family_ids::family_ids_view;
use crate::image_types::Dimensions;
use crate::image_types::FormatDesc;
use crate::image_types::ImageLayout;
use crate::image_types::ImageUsage;
use crate::image_types::MipmapsCount;
use crate::image_types::Sharing;
use crate::sys::spec_creation_supported;
use crate::sys::UnsafeImage;
use crate::sys::UnsafeImageView;

verus! {

/// The identifiers of the given queue families, in order.
pub open spec fn spec_family_ids(families: Seq<QueueFamily>) -> Seq<u32> {
    Seq::new(families.len(), |i: int| families[i].id)
}

/// The sharing mode an image is created with: concurrent across the
/// given families when there are two or more, exclusive otherwise.
pub open spec fn spec_sharing_for(ids: Seq<u32>, sharing: Sharing) -> bool {
    if ids.len() >= 2 {
        sharing matches Sharing::Concurrent(v) && v@ == ids
    } else {
        sharing == Sharing::Exclusive
    }
}

/// What an access request on an image resource is answered, given the
/// resource's fixed layout and its initialization state. The checks are
/// ordered: layout first, then the exclusivity rule, then
/// initialization.
pub open spec fn spec_access_decision(
    allowed: ImageLayout,
    initialized: bool,
    exclusive: bool,
    requested: ImageLayout,
) -> Result<(), AccessError> {
    if requested != allowed && requested != ImageLayout::Undefined {
        Err(AccessError::LayoutMismatch { requested, allowed })
    } else if exclusive {
        Err(AccessError::ExclusiveAccessDenied)
    } else if !initialized {
        Err(AccessError::ResourceNotInitialized)
    } else {
        Ok(())
    }
}

/// A read-only view of the raw objects behind an image resource.
pub struct ImageInner<'a> {
    pub image: &'a UnsafeImage,
    pub first_layer: usize,
    pub num_layers: usize,
    pub first_mipmap_level: usize,
    pub num_mipmap_levels: usize,
}

/// An image whose purpose is to be read: it is written exactly once, by
/// the upload that builds it, and only ever read afterwards.
pub struct ImmutableImage<F> {
    image: UnsafeImage,
    view: UnsafeImageView,
    dimensions: Dimensions,
    memory: MemAlloc,
    format: F,
    initialized: bool,
    layout: ImageLayout,
}

impl<F> ImmutableImage<F> {
    /// The identity key of the underlying device object.
    pub closed spec fn spec_key(self) -> u64 {
        self.image.spec_key()
    }

    pub closed spec fn spec_image(self) -> UnsafeImage {
        self.image
    }

    pub closed spec fn spec_view(self) -> UnsafeImageView {
        self.view
    }

    pub closed spec fn spec_dimensions(self) -> Dimensions {
        self.dimensions
    }

    pub closed spec fn spec_memory(self) -> MemAlloc {
        self.memory
    }

    pub closed spec fn spec_format_desc(self) -> F {
        self.format
    }

    pub closed spec fn spec_initialized(self) -> bool {
        self.initialized
    }

    /// The single fixed layout the resource rests in after upload.
    pub closed spec fn spec_layout(self) -> ImageLayout {
        self.layout
    }

    pub closed spec fn spec_mipmap_levels(self) -> u32 {
        self.image.spec_mipmap_levels()
    }

    pub closed spec fn spec_sharing(self) -> Sharing {
        self.image.spec_sharing()
    }

    /// The resource owns a bound image, a view over the whole of it, and
    /// memory validated against the device's image alignment.
    pub open spec fn wf(self) -> bool {
        &&& self.spec_image().spec_bound()
        &&& self.spec_view().spec_image_key() == self.spec_key()
        &&& self.spec_view().spec_mipmap_levels() == self.spec_mipmap_levels()
        &&& self.spec_view().spec_array_layers() == self.spec_dimensions().array_layers
        &&& self.spec_image().spec_dimensions() == self.spec_dimensions()
        &&& self.spec_mipmap_levels() >= 1
        &&& self.spec_memory().spec_size() == self.spec_dimensions().spec_texel_count()
        &&& self.spec_memory().spec_offset() % ALLOC_ALIGNMENT == 0
    }

    /// Two handles touch overlapping device state exactly when their
    /// identity keys match.
    pub open spec fn spec_conflicts<G>(self, other: ImmutableImage<G>) -> bool {
        self.spec_key() == other.spec_key()
    }

    /// Everything but the initialization flag is the same in both.
    pub open spec fn same_but_init(self, other: ImmutableImage<F>) -> bool {
        &&& other.spec_image() == self.spec_image()
        &&& other.spec_view() == self.spec_view()
        &&& other.spec_dimensions() == self.spec_dimensions()
        &&& other.spec_memory() == self.spec_memory()
        &&& other.spec_format_desc() == self.spec_format_desc()
        &&& other.spec_layout() == self.spec_layout()
    }
}

impl<F: FormatDesc> ImmutableImage<F> {
    /// Builds an uninitialized immutable image: creates the raw image
    /// object in the sharing mode the queue-family roster calls for,
    /// allocates and binds pool memory at a validated offset, and wraps
    /// a view over the whole image. Fails, leaving the device untouched,
    /// exactly when the request is beyond the device limits or the pool
    /// cannot hold the image.
    pub fn uninitialized(
        device: &mut Device,
        dimensions: Dimensions,
        format: F,
        mipmaps: MipmapsCount,
        usage: ImageUsage,
        layout: ImageLayout,
        queue_families: Vec<QueueFamily>,
    ) -> (r: Result<ImmutableImage<F>, ImageCreationError>)
        requires
            old(device).wf(),
            old(device).spec_next_key() < u64::MAX,
        ensures
            final(device).wf(),
            old(device).same_device(*final(device)),
            r is Ok <==> spec_creation_supported(dimensions, mipmaps, 1)
                && old(device).spec_can_alloc(
                dimensions.spec_texel_count() as u64,
                ALLOC_ALIGNMENT,
            ),
            !spec_creation_supported(dimensions, mipmaps, 1) ==> r == Err::<
                ImmutableImage<F>,
                ImageCreationError,
            >((ImageCreationError::UnsupportedDimensions { dimensions })),
            spec_creation_supported(dimensions, mipmaps, 1) && !old(device).spec_can_alloc(
                dimensions.spec_texel_count() as u64,
                ALLOC_ALIGNMENT,
            ) ==> r == Err::<ImmutableImage<F>, ImageCreationError>(
                ImageCreationError::AllocationFailure(OomError::OutOfDeviceMemory),
            ),
            r is Err ==> *final(device) == *old(device),
            r matches Ok(img) ==> {
                &&& img.wf()
                &&& !img.spec_initialized()
                &&& img.spec_dimensions() == dimensions
                &&& img.spec_format_desc() == format
                &&& img.spec_layout() == layout
                &&& img.spec_mipmap_levels() == mipmaps.spec_count()
                &&& img.spec_key() == old(device).spec_next_key()
                &&& spec_sharing_for(spec_family_ids(queue_families@), img.spec_sharing())
                &&& final(device).spec_next_key() == old(device).spec_next_key() + 1
                &&& final(device).spec_pool_used() == crate::device::spec_round_up(
                    old(device).spec_pool_used() as int,
                    ALLOC_ALIGNMENT as int,
                ) + dimensions.spec_texel_count()
            },
    {
        if !(dimensions.supported() && mipmaps.count() >= 1) {
            return Err(ImageCreationError::UnsupportedDimensions { dimensions });
        }
        let texels = dimensions.texel_count();
        if !device.can_allocate(texels, ALLOC_ALIGNMENT) {
            return Err(ImageCreationError::AllocationFailure(OomError::OutOfDeviceMemory));
        }
        let mut ids = family_ids_new();
        let mut i: usize = 0;
        while i < queue_families.len()
            invariant
                i <= queue_families.len(),
                family_ids_view(ids) == spec_family_ids(queue_families@.take(i as int)),
            decreases queue_families.len() - i,
        {
            proof {
                assert(spec_family_ids(queue_families@.take(i as int)).len() == i);
                assert(spec_family_ids(queue_families@.take(i + 1)) == spec_family_ids(
                    queue_families@.take(i as int),
                ).push(queue_families@[i as int].id));
            }
            family_ids_push(&mut ids, queue_families[i].id());
            i = i + 1;
        }
        proof {
            assert(queue_families@.take(queue_families@.len() as int) == queue_families@);
        }
        let sharing = if family_ids_len(&ids) >= 2 {
            Sharing::Concurrent(family_ids_to_vec(&ids))
        } else {
            Sharing::Exclusive
        };
        let created = UnsafeImage::new(device, usage, format.format(), dimensions, 1, mipmaps, sharing);
        let (mut image, reqs) = match created {
            Ok(p) => p,
            Err(_) => {
                proof {
                    assert(false);
                }
                return Err(ImageCreationError::UnsupportedDimensions { dimensions });
            },
        };
        let mem = match device.alloc_from_requirements(reqs) {
            Ok(m) => m,
            Err(_) => {
                proof {
                    assert(false);
                }
                return Err(ImageCreationError::AllocationFailure(OomError::OutOfDeviceMemory));
            },
        };
        image.bind_memory(mem.offset());
        let view = UnsafeImageView::raw(&image);
        Ok(
            ImmutableImage {
                image,
                view,
                dimensions,
                memory: mem,
                format,
                initialized: false,
                layout,
            },
        )
    }
}

impl<F> ImmutableImage<F> {
    /// Returns the dimensions of the image.
    pub fn dimensions(&self) -> (r: Dimensions)
        ensures
            r == self.spec_dimensions(),
    {
        self.dimensions
    }

    /// Returns the number of mipmap levels of the image.
    pub fn mipmap_levels(&self) -> (r: u32)
        ensures
            r == self.spec_mipmap_levels(),
    {
        self.image.mipmap_levels()
    }

    /// The raw objects behind the resource: the image whole, every
    /// layer, every mipmap level.
    pub fn inner(&self) -> (r: ImageInner)
        ensures
            *r.image == self.spec_image(),
            r.first_layer == 0,
            r.num_layers == self.spec_image().spec_dimensions().array_layers,
            r.first_mipmap_level == 0,
            r.num_mipmap_levels == self.spec_mipmap_levels(),
    {
        ImageInner {
            image: &self.image,
            first_layer: 0,
            num_layers: self.image.dimensions().array_layers as usize,
            first_mipmap_level: 0,
            num_mipmap_levels: self.image.mipmap_levels() as usize,
        }
    }

    /// The layout the resource must be in when first handed to the
    /// device: fixed for its whole lifetime.
    pub fn initial_layout_requirement(&self) -> (r: ImageLayout)
        ensures
            r == self.spec_layout(),
    {
        self.layout
    }

    /// The layout the resource rests in afterwards: the same fixed one.
    pub fn final_layout_requirement(&self) -> (r: ImageLayout)
        ensures
            r == self.spec_layout(),
    {
        self.layout
    }

    /// An image resource never overlaps a buffer.
    pub fn conflicts_buffer<P>(&self, _other: &CpuAccessibleBuffer<P>) -> (r: bool)
        ensures
            !r,
    {
        false
    }

    /// True exactly when the two handles reference the same underlying
    /// device object.
    pub fn conflicts_with<G>(&self, other: &ImmutableImage<G>) -> (r: bool)
        ensures
            r == self.spec_conflicts(*other),
    {
        self.image.key() == other.image.key()
    }

    /// The resource-identity value conflict detection goes by.
    pub fn conflict_key(&self) -> (r: u64)
        ensures
            r == self.spec_key(),
    {
        self.image.key()
    }

    /// Arbitrates an access request from later GPU work: refuses a
    /// mismatched non-`Undefined` layout, refuses exclusive access in
    /// every state, refuses shared access until the resource is
    /// initialized, and admits any number of shared reads afterwards.
    pub fn request_access(&self, exclusive: bool, expected_layout: ImageLayout) -> (r: Result<
        (),
        AccessError,
    >)
        ensures
            r == spec_access_decision(
                self.spec_layout(),
                self.spec_initialized(),
                exclusive,
                expected_layout,
            ),
    {
        if expected_layout != self.layout && expected_layout != ImageLayout::Undefined {
            return Err(
                AccessError::LayoutMismatch { requested: expected_layout, allowed: self.layout },
            );
        }
        if exclusive {
            return Err(AccessError::ExclusiveAccessDenied);
        }
        if !self.initialized {
            return Err(AccessError::ResourceNotInitialized);
        }
        Ok(())
    }

    /// The explicit initialization step: after the upload future
    /// resolves to the resource's token, presenting the token flips the
    /// resource to initialized, once and for all. A token for another
    /// resource is refused and changes nothing.
    pub fn mark_initialized(&mut self, token: &UploadToken) -> (r: bool)
        ensures
            r == (token.spec_image_key() == old(self).spec_key()),
            final(self).spec_initialized() == (old(self).spec_initialized()
                || token.spec_image_key() == old(self).spec_key()),
            old(self).same_but_init(*final(self)),
            old(self).wf() ==> final(self).wf(),
    {
        if token.image_key() == self.image.key() {
            self.initialized = true;
            true
        } else {
            false
        }
    }

    /// The image was written in the format the reader expects.
    pub fn matches_format(&self) -> (r: bool)
        ensures
            r,
    {
        true
    }

    /// The layout to declare for the resource as a storage image.
    pub fn descriptor_set_storage_image_layout(&self) -> (r: ImageLayout)
        ensures
            r == self.spec_layout(),
    {
        self.layout
    }

    /// The layout to declare for the resource sampled together with a
    /// sampler.
    pub fn descriptor_set_combined_image_sampler_layout(&self) -> (r: ImageLayout)
        ensures
            r == self.spec_layout(),
    {
        self.layout
    }

    /// The layout to declare for the resource as a sampled image.
    pub fn descriptor_set_sampled_image_layout(&self) -> (r: ImageLayout)
        ensures
            r == self.spec_layout(),
    {
        self.layout
    }

    /// The layout to declare for the resource as an input attachment.
    pub fn descriptor_set_input_attachment_layout(&self) -> (r: ImageLayout)
        ensures
            r == self.spec_layout(),
    {
        self.layout
    }

    /// The view applies no component swizzle.
    pub fn identity_swizzle(&self) -> (r: bool)
        ensures
            r,
    {
        true
    }
}

impl<F> PartialEq for ImmutableImage<F> {
    /// Equality of resource handles goes by the underlying device
    /// object's identity key alone, not by dimensions or format.
    fn eq(&self, other: &Self) -> (r: bool) {
        self.image.key() == other.image.key()
    }
}

impl<F> vstd::std_specs::cmp::PartialEqSpecImpl for ImmutableImage<F> {
    open spec fn obeys_eq_spec() -> bool {
        true
    }

    open spec fn eq_spec(&self, other: &Self) -> bool {
        self.spec_key() == other.spec_key()
    }
}

/// Law: layout fixedness. For any image resource, an access request
/// with a mismatched layout other than the `Undefined` sentinel is
/// answered `LayoutMismatch`, whatever the access mode and whether or
/// not the resource is initialized.
pub proof fn lemma_layout_fixedness<F>(
    img: ImmutableImage<F>,
    exclusive: bool,
    requested: ImageLayout,
)
    requires
        requested != img.spec_layout(),
        requested != ImageLayout::Undefined,
    ensures
        spec_access_decision(img.spec_layout(), img.spec_initialized(), exclusive, requested)
            == Err::<(), AccessError>(
            (AccessError::LayoutMismatch { requested, allowed: img.spec_layout() }),
        ),
{
}

/// Law: no premature read. A shared access request with an acceptable
/// layout on a resource whose upload has not been marked complete is
/// answered `ResourceNotInitialized`.
pub proof fn lemma_no_premature_read<F>(img: ImmutableImage<F>, requested: ImageLayout)
    requires
        !img.spec_initialized(),
        requested == img.spec_layout() || requested == ImageLayout::Undefined,
    ensures
        spec_access_decision(img.spec_layout(), img.spec_initialized(), false, requested) == Err::<
            (),
            AccessError,
        >(AccessError::ResourceNotInitialized),
{
}

/// Law: no exclusive access ever. An exclusive access request with an
/// acceptable layout is answered `ExclusiveAccessDenied` in every state
/// of the resource, initialized or not. (With a mismatched layout the
/// request also fails, but the layout check answers first.)
pub proof fn lemma_no_exclusive_access<F>(img: ImmutableImage<F>, requested: ImageLayout)
    requires
        requested == img.spec_layout() || requested == ImageLayout::Undefined,
    ensures
        spec_access_decision(img.spec_layout(), img.spec_initialized(), true, requested) == Err::<
            (),
            AccessError,
        >(AccessError::ExclusiveAccessDenied),
{
}

/// Law: conflict-key equality, first half. Two handles over the same
/// underlying device object — the same identity key — report a
/// conflict.
pub proof fn lemma_same_object_conflicts<F, G>(a: ImmutableImage<F>, b: ImmutableImage<G>)
    requires
        a.spec_key() == b.spec_key(),
    ensures
        a.spec_conflicts(b),
{
}

/// Law: conflict-key equality, second half. Independently built
/// resources carry distinct identity keys — each build takes the
/// device's next key and advances the counter — and handles with
/// distinct keys never report a conflict, whatever their dimensions or
/// format.
pub proof fn lemma_independent_no_conflict<F, G>(a: ImmutableImage<F>, b: ImmutableImage<G>)
    requires
        a.spec_key() != b.spec_key(),
    ensures
        !a.spec_conflicts(b),
{
}

} // verus!
