//! A texture loaded from an image file.
use crate::graphics::vulkan::Extent2D;
use vstd::prelude::*;

verus! {

/// A Vulkan image paired with its backing memory and the file it came from.
#[derive(Debug, PartialEq, Eq)]
pub struct Texture {
    path: String,
    width: u32,
    height: u32,
    image: u64,
    memory: u64,
}

impl Texture {
    /// Records a texture loaded from `path`.
    pub fn new(path: String, width: u32, height: u32, image: u64, memory: u64) -> (r: Self)
        ensures
            r.spec_path() == path@,
            r.spec_width() == width,
            r.spec_height() == height,
            r.spec_image() == image,
            r.spec_memory() == memory,
    {
        Texture { path, width, height, image, memory }
    }

    pub closed spec fn spec_path(&self) -> Seq<char> {
        self.path@
    }

    pub closed spec fn spec_width(&self) -> u32 {
        self.width
    }

    pub closed spec fn spec_height(&self) -> u32 {
        self.height
    }

    pub closed spec fn spec_image(&self) -> u64 {
        self.image
    }

    pub closed spec fn spec_memory(&self) -> u64 {
        self.memory
    }

    /// A non-owning handle for the underlying Vulkan image resource.
    pub fn image(&self) -> (r: u64)
        ensures
            r == self.spec_image(),
    {
        self.image
    }

    /// A non-owning handle for the underlying GPU memory.
    pub fn memory(&self) -> (r: u64)
        ensures
            r == self.spec_memory(),
    {
        self.memory
    }

    pub fn width(&self) -> (r: u32)
        ensures
            r == self.spec_width(),
    {
        self.width
    }

    pub fn height(&self) -> (r: u32)
        ensures
            r == self.spec_height(),
    {
        self.height
    }

    pub fn extent(&self) -> (r: Extent2D)
        ensures
            r == (Extent2D { width: self.spec_width(), height: self.spec_height() }),
    {
        Extent2D { width: self.width(), height: self.height() }
    }
}

} // verus!
