//! Textures: images in GPU memory with their metadata.
pub mod bindless;
pub mod texture_loader;

use crate::graphics::vulkan::{Extent2D, ImageDescription, ImageLayout, ImageViewDescription};
use vstd::prelude::*;

verus! {

/// The image that backs a texture of `dimensions`: one mip level and one
/// layer, in `format`, for `usage`, starting in the undefined layout, in
/// memory with `memory_properties`.
pub open spec fn texture_image(dimensions: (u32, u32), format: i32, usage: u32, memory_properties: u32) -> ImageDescription {
    ImageDescription {
        format,
        width: dimensions.0,
        height: dimensions.1,
        mip_levels: 1,
        array_layers: 1,
        usage,
        initial_layout: ImageLayout::Undefined,
        memory_properties,
    }
}

/// The color view of a texture's `image`: its one mip level and one layer.
pub open spec fn texture_view(image: u64, format: i32) -> ImageViewDescription {
    ImageViewDescription { image, format, level_count: 1, layer_count: 1 }
}

/// A Vulkan image paired with its view, its backing memory and its metadata.
///
/// The handles are owned by whoever created them; the texture only records
/// them.
#[derive(Debug, Clone, PartialEq, Eq)]
pub struct Texture {
    name: String,
    width: u32,
    height: u32,
    image: u64,
    image_view: u64,
    memory: u64,
}

impl Texture {
    /// Records a texture with the given dimensions whose image, view and
    /// memory were created with those dimensions.
    pub fn new(name: String, dimensions: (u32, u32), image: u64, image_view: u64, memory: u64) -> (r:
        Self)
        ensures
            r.spec_name() == name@,
            r.spec_width() == dimensions.0,
            r.spec_height() == dimensions.1,
            r.spec_image() == image,
            r.spec_view() == image_view,
            r.spec_memory() == memory,
    {
        let (width, height) = dimensions;
        Texture { name, width, height, image, image_view, memory }
    }

    /// Describes the image to create for a texture of `dimensions`; the
    /// texture's memory holds undefined data until something is uploaded.
    pub fn image_description(
        dimensions: (u32, u32),
        format: i32,
        usage: u32,
        memory_property_flags: u32,
    ) -> (r: ImageDescription)
        ensures
            r == texture_image(dimensions, format, usage, memory_property_flags),
    {
        let (width, height) = dimensions;
        ImageDescription {
            format,
            width,
            height,
            mip_levels: 1,
            array_layers: 1,
            usage,
            initial_layout: ImageLayout::Undefined,
            memory_properties: memory_property_flags,
        }
    }

    /// Describes the color view to create of a texture's `image`.
    pub fn view_description(image: u64, format: i32) -> (r: ImageViewDescription)
        ensures
            r == texture_view(image, format),
    {
        ImageViewDescription { image, format, level_count: 1, layer_count: 1 }
    }

    pub closed spec fn spec_name(&self) -> Seq<char> {
        self.name@
    }

    pub closed spec fn spec_width(&self) -> u32 {
        self.width
    }

    pub closed spec fn spec_height(&self) -> u32 {
        self.height
    }

    pub closed spec fn spec_image(&self) -> u64 {
        self.image
    }

    pub closed spec fn spec_view(&self) -> u64 {
        self.image_view
    }

    pub closed spec fn spec_memory(&self) -> u64 {
        self.memory
    }

    /// A non-owning handle for the underlying Vulkan image resource.
    pub fn image(&self) -> (r: u64)
        ensures
            r == self.spec_image(),
    {
        self.image
    }

    /// A non-owning handle for the underlying Vulkan image view.
    pub fn view(&self) -> (r: u64)
        ensures
            r == self.spec_view(),
    {
        self.image_view
    }

    /// A non-owning handle for the underlying GPU memory.
    pub fn memory(&self) -> (r: u64)
        ensures
            r == self.spec_memory(),
    {
        self.memory
    }

    pub fn width(&self) -> (r: u32)
        ensures
            r == self.spec_width(),
    {
        self.width
    }

    pub fn height(&self) -> (r: u32)
        ensures
            r == self.spec_height(),
    {
        self.height
    }

    pub fn extent(&self) -> (r: Extent2D)
        ensures
            r == (Extent2D { width: self.spec_width(), height: self.spec_height() }),
    {
        Extent2D { width: self.width(), height: self.height() }
    }
}

} // verus!
