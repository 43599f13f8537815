use gpu_upload::buffer::BufferUsage;
use gpu_upload::buffer::CpuAccessibleBuffer;
use gpu_upload::command_buffer::CommandBuffer;
use gpu_upload::command_buffer::Flags;
use gpu_upload::command_buffer::Kind;
use gpu_upload::command_buffer::TextureUpload;
use gpu_upload::command_buffer::UnsafeCommandBufferBuilder;
use gpu_upload::command_buffer::UploadToken;
use gpu_upload::device::Device;
use gpu_upload::device::Queue;
use gpu_upload::device::QueueFamily;
use gpu_upload::errors::AccessError;
use gpu_upload::errors::ImageCreationError;
use gpu_upload::errors::OomError;
use gpu_upload::errors::StageError;
use gpu_upload::fence_future::FenceFuture;
use gpu_upload::fence_future::FencePoll;
use gpu_upload::image_types::Dimensions;
use gpu_upload::image_types::Format;
use gpu_upload::image_types::ImageLayout;
use gpu_upload::image_types::MipmapsCount;
use gpu_upload::image_types::Sharing;
use gpu_upload::image_types::ImageUsage;
use gpu_upload::immutable::ImmutableImage;
use gpu_upload::upload::StagedUpload;
use gpu_upload::upload::TextureUploadBuilder;

fn small_device() -> (Device, Queue) {
    let device = Device::new(1 << 20, vec![0]);
    let queue = Queue::new(QueueFamily { id: 0 });
    (device, queue)
}

fn dims(width: u32, height: u32, depth: u32) -> Dimensions {
    Dimensions { width, height, depth, array_layers: 1 }
}

fn build_4x4(
    device: &mut Device,
    queue: &Queue,
) -> (ImmutableImage<Format>, FenceFuture<UploadToken>) {
    let pixels: Vec<u32> = (0..16).collect();
    ImmutableImage::from_iter(pixels, dims(4, 4, 1), Format::R8G8B8A8Unorm, device, queue)
        .expect("the upload should build")
}

fn resolve(image: &mut ImmutableImage<Format>, fut: &mut FenceFuture<UploadToken>) {
    match fut.poll() {
        FencePoll::Ready(token) => {
            assert!(image.mark_initialized(&token));
        }
        _ => panic!("the submitted upload's fence should already be signaled"),
    }
}

#[test]
fn make_cb() {
    let (device, queue) = small_device();
    let cb = UnsafeCommandBufferBuilder::new(
        &Device::standard_command_pool(&device, queue.family()),
        Kind::primary(),
        Flags::OneTimeSubmit,
    )
    .unwrap()
    .build();
    assert_eq!(cb.kind(), Kind::Primary);
}

#[test]
fn staging_round_trip() {
    let (mut device, queue) = small_device();
    let source: Vec<u16> = vec![7, 1, 8, 2, 8, 1];
    let builder: TextureUploadBuilder<Format> = TextureUploadBuilder::new(&queue).unwrap();
    let staged: StagedUpload<u16, Format> = builder
        .dimensions(dims(3, 2, 1))
        .format(Format::R8Unorm)
        .stage(&mut device, source.clone())
        .unwrap();
    assert_eq!(staged.buffer().len(), source.len());
    assert_eq!(staged.buffer().read(), &source);
}

#[test]
fn staging_keeps_order_and_count() {
    let (mut device, _queue) = small_device();
    let source: Vec<u8> = (0..100).rev().collect();
    let buffer =
        CpuAccessibleBuffer::from_iter(&mut device, BufferUsage::transfer_source(), false, source.clone())
            .unwrap();
    assert_eq!(buffer.len(), 100);
    assert_eq!(buffer.read(), &source);
}

#[test]
fn full_upload_scenario() {
    let (mut device, queue) = small_device();
    let (mut image, mut fut) = build_4x4(&mut device, &queue);
    assert_eq!(image.dimensions().width_height_depth(), (4, 4, 1));
    assert_eq!(image.mipmap_levels(), 1);
    resolve(&mut image, &mut fut);
    assert!(image.request_access(false, ImageLayout::ShaderReadOnlyOptimal).is_ok());
    assert!(image.request_access(false, ImageLayout::Undefined).is_ok());
}

#[test]
fn access_before_await_fails() {
    let (mut device, queue) = small_device();
    let (image, _fut) = build_4x4(&mut device, &queue);
    assert_eq!(
        image.request_access(false, ImageLayout::ShaderReadOnlyOptimal),
        Err(AccessError::ResourceNotInitialized)
    );
    assert_eq!(
        image.request_access(false, ImageLayout::Undefined),
        Err(AccessError::ResourceNotInitialized)
    );
}

#[test]
fn layout_mismatch_fails_in_every_state() {
    let (mut device, queue) = small_device();
    let (mut image, mut fut) = build_4x4(&mut device, &queue);
    let mismatch = Err(AccessError::LayoutMismatch {
        requested: ImageLayout::General,
        allowed: ImageLayout::ShaderReadOnlyOptimal,
    });
    assert_eq!(image.request_access(false, ImageLayout::General), mismatch);
    assert_eq!(image.request_access(true, ImageLayout::General), mismatch);
    resolve(&mut image, &mut fut);
    assert_eq!(image.request_access(false, ImageLayout::General), mismatch);
    assert_eq!(image.request_access(true, ImageLayout::General), mismatch);
}

#[test]
fn exclusive_access_never_granted() {
    let (mut device, queue) = small_device();
    let (mut image, mut fut) = build_4x4(&mut device, &queue);
    assert_eq!(
        image.request_access(true, ImageLayout::ShaderReadOnlyOptimal),
        Err(AccessError::ExclusiveAccessDenied)
    );
    assert_eq!(
        image.request_access(true, ImageLayout::Undefined),
        Err(AccessError::ExclusiveAccessDenied)
    );
    resolve(&mut image, &mut fut);
    assert_eq!(
        image.request_access(true, ImageLayout::ShaderReadOnlyOptimal),
        Err(AccessError::ExclusiveAccessDenied)
    );
}

#[test]
fn conflict_keys_separate_independent_builds() {
    let (mut device, queue) = small_device();
    let (image_a, _fut_a) = build_4x4(&mut device, &queue);
    let (image_b, _fut_b) = build_4x4(&mut device, &queue);
    assert!(image_a.conflicts_with(&image_a));
    assert!(image_b.conflicts_with(&image_b));
    assert!(!image_a.conflicts_with(&image_b));
    assert!(!image_b.conflicts_with(&image_a));
    assert_ne!(image_a.conflict_key(), image_b.conflict_key());
    assert!(image_a == image_a);
    assert!(image_a != image_b);
}

#[test]
fn buffers_never_conflict_with_images() {
    let (mut device, queue) = small_device();
    let (image, _fut) = build_4x4(&mut device, &queue);
    let buffer =
        CpuAccessibleBuffer::from_iter(&mut device, BufferUsage::transfer_source(), false, vec![1u8])
            .unwrap();
    assert!(!image.conflicts_buffer(&buffer));
}

#[test]
fn allocation_failure_aborts_build() {
    let mut device = Device::new(8, vec![0]);
    let queue = Queue::new(QueueFamily { id: 0 });
    let pixels: Vec<u32> = (0..16).collect();
    let r = ImmutableImage::from_iter(pixels, dims(4, 4, 1), Format::R8G8B8A8Unorm, &mut device, &queue);
    assert_eq!(
        r.err().map(|e| e),
        Some(ImageCreationError::AllocationFailure(OomError::OutOfDeviceMemory))
    );
}

#[test]
fn image_allocation_respects_alignment() {
    // After ten staged units the image offset is rounded up to the
    // device's image alignment of 256: the build needs 256 + 16 units.
    let queue = Queue::new(QueueFamily { id: 0 });
    let pixels: Vec<u8> = (0..10).collect();

    let mut roomy = Device::new(272, vec![0]);
    let staged: StagedUpload<u8, Format> = TextureUploadBuilder::new(&queue)
        .unwrap()
        .dimensions(dims(4, 4, 1))
        .format(Format::R8Unorm)
        .stage(&mut roomy, pixels.clone())
        .unwrap();
    assert!(staged.build(&mut roomy).is_ok());

    let mut tight = Device::new(271, vec![0]);
    let staged: StagedUpload<u8, Format> = TextureUploadBuilder::new(&queue)
        .unwrap()
        .dimensions(dims(4, 4, 1))
        .format(Format::R8Unorm)
        .stage(&mut tight, pixels)
        .unwrap();
    match staged.build(&mut tight) {
        Err(e) => assert_eq!(e, ImageCreationError::AllocationFailure(OomError::OutOfDeviceMemory)),
        Ok(_) => panic!("one unit short of the aligned image must not fit"),
    }
}

#[test]
fn submission_failure_on_lost_device() {
    let (mut device, queue) = small_device();
    device.set_lost();
    let pixels: Vec<u32> = (0..16).collect();
    let r = ImmutableImage::from_iter(pixels, dims(4, 4, 1), Format::R8G8B8A8Unorm, &mut device, &queue);
    assert_eq!(r.err().map(|e| e), Some(ImageCreationError::SubmissionFailure));
}

#[test]
fn degenerate_dimensions_rejected() {
    let (mut device, queue) = small_device();
    let r = ImmutableImage::from_iter(vec![0u8; 0], dims(0, 4, 1), Format::R8Unorm, &mut device, &queue);
    assert_eq!(
        r.err().map(|e| e),
        Some(ImageCreationError::UnsupportedDimensions { dimensions: dims(0, 4, 1) })
    );
}

#[test]
fn stage_without_configuration_fails() {
    let (mut device, queue) = small_device();
    let builder: TextureUploadBuilder<Format> = TextureUploadBuilder::new(&queue).unwrap();
    let r = builder.stage(&mut device, vec![0u8; 4]);
    assert_eq!(r.err().map(|e| e), Some(StageError::ConfigurationIncomplete));

    let builder: TextureUploadBuilder<Format> = TextureUploadBuilder::new(&queue).unwrap();
    let r = builder.dimensions(dims(2, 2, 1)).stage(&mut device, vec![0u8; 4]);
    assert_eq!(r.err().map(|e| e), Some(StageError::ConfigurationIncomplete));
}

#[test]
fn staging_allocation_failure() {
    let mut device = Device::new(3, vec![0]);
    let queue = Queue::new(QueueFamily { id: 0 });
    let builder: TextureUploadBuilder<Format> = TextureUploadBuilder::new(&queue).unwrap();
    let r = builder
        .dimensions(dims(2, 2, 1))
        .format(Format::R8Unorm)
        .stage(&mut device, vec![0u8; 4]);
    assert_eq!(
        r.err().map(|e| e),
        Some(StageError::AllocationFailure(OomError::OutOfDeviceMemory))
    );
}

#[test]
fn builder_pipeline_submits_like_the_entry_point() {
    let (mut device, queue) = small_device();
    let pixels: Vec<u32> = (0..16).collect();
    let staged: StagedUpload<u32, Format> = TextureUploadBuilder::new(&queue)
        .unwrap()
        .dimensions(dims(4, 4, 1))
        .format(Format::R8G8B8A8Unorm)
        .stage(&mut device, pixels)
        .unwrap();
    let (mut image, upload) = staged.build(&mut device).unwrap();
    let mut fut = CommandBuffer::submit(upload, &device, &queue).unwrap();
    resolve(&mut image, &mut fut);
    assert!(image.request_access(false, ImageLayout::ShaderReadOnlyOptimal).is_ok());
}

#[test]
fn enqueue_behaves_like_submit() {
    let (mut device, queue) = small_device();
    let pixels: Vec<u8> = vec![1, 2, 3, 4];
    let staged: StagedUpload<u8, Format> = TextureUploadBuilder::new(&queue)
        .unwrap()
        .dimensions(dims(2, 2, 1))
        .format(Format::R8Unorm)
        .stage(&mut device, pixels)
        .unwrap();
    let (mut image, upload) = staged.build(&mut device).unwrap();
    let mut fut = TextureUpload::enqueue(upload, &device, &queue).unwrap();
    resolve(&mut image, &mut fut);
    assert!(image.request_access(false, ImageLayout::Undefined).is_ok());
}

#[test]
fn token_of_another_resource_is_refused() {
    let (mut device, queue) = small_device();
    let (mut image_a, mut fut_a) = build_4x4(&mut device, &queue);
    let (mut image_b, _fut_b) = build_4x4(&mut device, &queue);
    let token_a = match fut_a.poll() {
        FencePoll::Ready(t) => t,
        _ => panic!("the fence should be signaled"),
    };
    assert!(!image_b.mark_initialized(&token_a));
    assert_eq!(
        image_b.request_access(false, ImageLayout::Undefined),
        Err(AccessError::ResourceNotInitialized)
    );
    assert!(image_a.mark_initialized(&token_a));
    assert!(image_a.request_access(false, ImageLayout::Undefined).is_ok());
}

#[test]
fn sharing_mode_follows_family_roster() {
    let mut multi = Device::new(1 << 20, vec![3, 7]);
    let queue = Queue::new(QueueFamily { id: 3 });
    let pixels: Vec<u8> = vec![0; 4];
    let (image, _fut) =
        ImmutableImage::from_iter(pixels, dims(2, 2, 1), Format::R8Unorm, &mut multi, &queue)
            .unwrap();
    match image.inner().image.sharing() {
        Sharing::Concurrent(ids) => assert_eq!(ids, &vec![3, 7]),
        Sharing::Exclusive => panic!("two families should share concurrently"),
    }

    let (mut single, queue) = small_device();
    let (image, _fut) =
        ImmutableImage::from_iter(vec![0u8; 4], dims(2, 2, 1), Format::R8Unorm, &mut single, &queue)
            .unwrap();
    match image.inner().image.sharing() {
        Sharing::Exclusive => {}
        Sharing::Concurrent(_) => panic!("one family must not share concurrently"),
    }
}

#[test]
fn usage_constructors_start_empty() {
    let b = BufferUsage::none();
    assert!(!b.transfer_source);
    assert!(!b.transfer_destination);
    let i = ImageUsage::none();
    assert!(!i.transfer_source);
    assert!(!i.transfer_destination);
    assert!(!i.sampled);
}

#[test]
fn uninitialized_image_attributes() {
    let (mut device, _queue) = small_device();
    let families = device.active_queue_families();
    let usage = ImageUsage { transfer_destination: true, sampled: true, ..ImageUsage::none() };
    let image: ImmutableImage<Format> = ImmutableImage::uninitialized(
        &mut device,
        dims(8, 8, 1),
        Format::B8G8R8A8Unorm,
        MipmapsCount::Specific(3),
        usage,
        ImageLayout::General,
        families,
    )
    .unwrap();
    assert_eq!(image.mipmap_levels(), 3);
    assert_eq!(image.dimensions().width_height_depth(), (8, 8, 1));
    assert_eq!(image.initial_layout_requirement(), ImageLayout::General);
    assert_eq!(image.final_layout_requirement(), ImageLayout::General);
    assert_eq!(image.descriptor_set_sampled_image_layout(), ImageLayout::General);
    assert_eq!(image.descriptor_set_storage_image_layout(), ImageLayout::General);
    assert_eq!(image.descriptor_set_combined_image_sampler_layout(), ImageLayout::General);
    assert_eq!(image.descriptor_set_input_attachment_layout(), ImageLayout::General);
    assert!(image.identity_swizzle());
    assert!(image.matches_format());
    let inner = image.inner();
    assert_eq!(inner.first_layer, 0);
    assert_eq!(inner.num_layers, 1);
    assert_eq!(inner.first_mipmap_level, 0);
    assert_eq!(inner.num_mipmap_levels, 3);
}
