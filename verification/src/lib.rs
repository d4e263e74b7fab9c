//! Models of the GPU resource lifecycle and frame-pipeline coordination of a
//! double-buffered real-time renderer: swapchain configuration and recreation
//! planning, the frame-in-flight scheduler, staged uploads, and the small
//! pieces of pure arithmetic the render loop relies on.

pub mod device;
pub mod fence;
pub mod frame;
pub mod gui;
pub mod image;
pub mod sdf;
pub mod surface;
pub mod swapchain;
pub mod upload;

use vstd::prelude::*;

verus! {

/// Borrowing the value behind an owning handle, whether it is held directly
/// or behind a shared-ownership pointer.
pub trait Owned<T> {
    fn inner(&self) -> &T;
}

impl<T> Owned<T> for T {
    fn inner(&self) -> &T {
        self
    }
}

impl<T> Owned<T> for std::sync::Arc<T> {
    fn inner(&self) -> &T {
        &**self
    }
}

/// A packed API version number: ten bits of major, ten of minor and twelve of
/// patch, laid out high to low in one 32-bit word.
pub struct Version {
    vk: u32,
}

impl Version {
    /// The packed word, as contracts see it.
    pub closed spec fn spec_packed(&self) -> u32 {
        self.vk
    }

    pub fn new(major: u16, minor: u16, patch: u16) -> (v: Version)
        ensures
            v.spec_packed() == ((major as u32) << 22u32) | ((minor as u32) << 12u32) | (
            patch as u32),
            (major < 1024 && minor < 1024 && patch < 4096) ==> v.spec_packed() == major * 0x400000
                + minor * 0x1000 + patch,
    {
        let packed: u32 = ((major as u32) << 22u32) | ((minor as u32) << 12u32) | (patch as u32);
        proof {
            let m = major as u32;
            let n = minor as u32;
            let p = patch as u32;
            assert(m < 1024 && n < 1024 && p < 4096 ==> (m << 22u32) | (n << 12u32) | p
                == m * 0x400000 + n * 0x1000 + p) by (bit_vector);
        }
        Version { vk: packed }
    }

    /// The packed word handed to the graphics API.
    pub fn packed(&self) -> (r: u32)
        ensures
            r == self.spec_packed(),
    {
        self.vk
    }
}

} // verus!
