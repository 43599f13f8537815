use gpu_upload::device::Device;
use gpu_upload::fence_future::Fence;
use gpu_upload::fence_future::FenceFuture;
use gpu_upload::fence_future::FencePoll;
use gpu_upload::errors::OomError;

fn healthy_device() -> Device {
    Device::new(1 << 20, vec![0])
}

#[test]
fn async_fence() {
    // A future over an already-signaled fence resolves on its first
    // poll, handing back the payload it was built with.
    let device = healthy_device();
    let fence = Fence::alloc_signaled(&device);
    let mut fut = FenceFuture::new(fence, ());
    assert!(!fut.is_resolved());
    match fut.poll() {
        FencePoll::Ready(()) => {}
        _ => panic!("a signaled fence must resolve the first poll"),
    }
    assert!(fut.is_resolved());
}

#[test]
fn pending_until_signaled() {
    let device = healthy_device();
    let fence = Fence::new(&device, false);
    let mut fut = FenceFuture::new(fence, 42u32);
    for _ in 0..3 {
        match fut.poll() {
            FencePoll::Pending => {}
            _ => panic!("an unsignaled fence must leave the future pending"),
        }
        assert!(!fut.is_resolved());
    }
}

#[test]
fn ready_hands_back_the_payload() {
    let device = healthy_device();
    let fence = Fence::new(&device, true);
    let mut fut = FenceFuture::new(fence, String::from("texture"));
    match fut.poll() {
        FencePoll::Ready(payload) => assert_eq!(payload, "texture"),
        _ => panic!("a signaled fence must resolve the first poll"),
    }
    assert!(fut.is_resolved());
}

#[test]
fn query_failure_is_terminal() {
    let mut lost = healthy_device();
    lost.set_lost();
    let fence = Fence::new(&lost, true);
    assert_eq!(fence.ready(), Err(OomError::OutOfDeviceMemory));
    let mut fut = FenceFuture::new(fence, 7u8);
    match fut.poll() {
        FencePoll::Failed(e) => assert_eq!(e, OomError::OutOfDeviceMemory),
        _ => panic!("a failing query must fail the future"),
    }
    assert!(fut.is_resolved());
}

#[test]
fn fence_ready_reports_state() {
    let device = healthy_device();
    assert_eq!(Fence::new(&device, false).ready(), Ok(false));
    assert_eq!(Fence::new(&device, true).ready(), Ok(true));
}
