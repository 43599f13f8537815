//! Plain descriptions of an image: its layout, pixel format, extent,
//! mipmap count, usage flags and queue-sharing mode.

use vstd::prelude::*;

verus! {

/// The device-internal memory arrangement of an image. It decides which
/// operations may legally read or write the image. `Undefined` doubles as
/// the "caller does not care" sentinel in access requests.
#[derive(Clone, Copy, Debug, PartialEq, Eq, Structural)]
pub enum ImageLayout {
    Undefined,
    General,
    TransferDstOptimal,
    ShaderReadOnlyOptimal,
}

/// The pixel format of an image, fixed at creation.
#[derive(Clone, Copy, Debug, PartialEq, Eq, Structural)]
pub enum Format {
    R8Unorm,
    R8G8B8A8Unorm,
    B8G8R8A8Unorm,
}

/// A value that describes a pixel format. The image keeps the descriptor
/// it was built with; the descriptor names the `Format` it stands for.
pub trait FormatDesc: Sized {
    spec fn spec_format(&self) -> Format;

    fn format(&self) -> (r: Format)
        ensures
            r == self.spec_format(),
    ;
}

impl FormatDesc for Format {
    open spec fn spec_format(&self) -> Format {
        *self
    }

    fn format(&self) -> (r: Format) {
        *self
    }
}

/// The extent of an image: width, height, depth and the number of array
/// layers, all fixed at creation.
#[derive(Clone, Copy, Debug, PartialEq, Eq, Structural)]
pub struct Dimensions {
    pub width: u32,
    pub height: u32,
    pub depth: u32,
    pub array_layers: u32,
}

/// The largest extent the modeled device accepts along any axis.
pub const MAX_IMAGE_EXTENT: u32 = 16384;

/// The largest number of array layers the modeled device accepts.
pub const MAX_ARRAY_LAYERS: u32 = 2048;

impl Dimensions {
    /// A device can create an image of these dimensions: every axis is
    /// nonzero and within the device limits.
    pub open spec fn spec_supported(self) -> bool {
        &&& 1 <= self.width <= MAX_IMAGE_EXTENT
        &&& 1 <= self.height <= MAX_IMAGE_EXTENT
        &&& 1 <= self.depth <= MAX_IMAGE_EXTENT
        &&& 1 <= self.array_layers <= MAX_ARRAY_LAYERS
    }

    /// The number of texels the image holds: the product of the extent
    /// along every axis and the layer count.
    pub open spec fn spec_texel_count(self) -> int {
        self.width * self.height * self.depth * self.array_layers
    }

    pub fn supported(&self) -> (r: bool)
        ensures
            r == self.spec_supported(),
    {
        1 <= self.width && self.width <= MAX_IMAGE_EXTENT && 1 <= self.height && self.height
            <= MAX_IMAGE_EXTENT && 1 <= self.depth && self.depth <= MAX_IMAGE_EXTENT && 1
            <= self.array_layers && self.array_layers <= MAX_ARRAY_LAYERS
    }

    /// The texel count as a `u64`; within the device limits it fits.
    pub fn texel_count(&self) -> (r: u64)
        requires
            self.spec_supported(),
        ensures
            r == self.spec_texel_count(),
    {
        proof {
            vstd::arithmetic::mul::lemma_mul_upper_bound(
                self.width as int,
                MAX_IMAGE_EXTENT as int,
                self.height as int,
                MAX_IMAGE_EXTENT as int,
            );
            vstd::arithmetic::mul::lemma_mul_upper_bound(
                (self.width * self.height) as int,
                (MAX_IMAGE_EXTENT * MAX_IMAGE_EXTENT) as int,
                self.depth as int,
                MAX_IMAGE_EXTENT as int,
            );
            vstd::arithmetic::mul::lemma_mul_upper_bound(
                (self.width * self.height * self.depth) as int,
                (MAX_IMAGE_EXTENT * MAX_IMAGE_EXTENT * MAX_IMAGE_EXTENT) as int,
                self.array_layers as int,
                MAX_ARRAY_LAYERS as int,
            );
        }
        let wh: u64 = (self.width as u64) * (self.height as u64);
        let whd: u64 = wh * (self.depth as u64);
        whd * (self.array_layers as u64)
    }

    pub fn width_height_depth(&self) -> (r: (u32, u32, u32))
        ensures
            r.0 == self.width,
            r.1 == self.height,
            r.2 == self.depth,
    {
        (self.width, self.height, self.depth)
    }

    pub fn array_layers_with_cube(&self) -> (r: u32)
        ensures
            r == self.array_layers,
    {
        self.array_layers
    }
}

/// How many mipmap levels an image is created with.
#[derive(Clone, Copy, Debug, PartialEq, Eq, Structural)]
pub enum MipmapsCount {
    One,
    Specific(u32),
}

impl MipmapsCount {
    pub open spec fn spec_count(self) -> u32 {
        match self {
            MipmapsCount::One => 1,
            MipmapsCount::Specific(n) => n,
        }
    }

    pub fn count(&self) -> (r: u32)
        ensures
            r == self.spec_count(),
    {
        match self {
            MipmapsCount::One => 1,
            MipmapsCount::Specific(n) => *n,
        }
    }
}

/// What an image may be used for.
#[derive(Clone, Copy, Debug, PartialEq, Eq, Structural)]
pub struct ImageUsage {
    pub transfer_source: bool,
    pub transfer_destination: bool,
    pub sampled: bool,
}

impl ImageUsage {
    pub fn none() -> (r: ImageUsage)
        ensures
            r == (ImageUsage { transfer_source: false, transfer_destination: false, sampled: false }),
    {
        ImageUsage { transfer_source: false, transfer_destination: false, sampled: false }
    }
}

/// Which queue families may touch the image. An image shared among two or
/// more families is created in concurrent sharing mode, with the family
/// identifiers recorded in the order they were given.
#[derive(Debug)]
pub enum Sharing {
    Exclusive,
    Concurrent(Vec<u32>),
}

} // verus!
