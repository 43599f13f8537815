//! A GPU resource-upload and synchronization core, modeled over an
//! in-process device: host pixel data is staged into a transfer-source
//! buffer, copied into a device-resident image by a recorded command
//! sequence, and the finished image is guarded by an access-arbitration
//! contract that rejects layout mismatches, exclusive access, and reads
//! of a not-yet-initialized resource.

pub mod buffer;
pub mod command_buffer;
pub mod device;
pub mod errors;
pub mod family_ids;
pub mod fence_future;
pub mod image_types;
pub mod immutable;
pub mod sys;
pub mod upload;
