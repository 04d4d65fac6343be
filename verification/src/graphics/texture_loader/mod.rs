//! Loading image files into textures through a staging buffer.
pub mod texture;
pub mod transfer_buffer;

use crate::graphics::image_file::{decode_rgba8, decoded_rgba8};
use crate::graphics::texture::texture_image;
use crate::graphics::texture_loader::texture::Texture;
use crate::graphics::texture_loader::transfer_buffer::{grown_capacity, TransferBuffer};
use crate::graphics::texture::texture_loader::LoadError;
use crate::graphics::vulkan::{
    staging_buffer, Access, BufferDescription, Command, ImageDescription, ImageLayout,
    PipelineStage, FORMAT_R8G8B8A8_UNORM, IMAGE_USAGE_SAMPLED, IMAGE_USAGE_TRANSFER_DST,
    MEMORY_DEVICE_LOCAL,
};
use crate::graphics::texture_loader::transfer_buffer::{lemma_grown_capacity, pow2};
use crate::graphics::vulkan::{BUFFER_USAGE_TRANSFER_SRC, MEMORY_HOST_VISIBLE_COHERENT};
use vstd::prelude::*;

verus! {

/// The commands that copy `width` by `height` texels from the start of the
/// staging buffer into `image` and leave the image ready for sampling: a move
/// into the transfer destination layout, the copy, and a move into the
/// shader-read layout.
pub open spec fn spec_upload_commands(buffer: u64, image: u64, width: u32, height: u32) -> Seq<
    Command,
> {
    seq![
        Command::ImageBarrier {
            src_stage: PipelineStage::TopOfPipe,
            dst_stage: PipelineStage::Transfer,
            src_access: Access::NoAccess,
            dst_access: Access::TransferWrite,
            old_layout: ImageLayout::Undefined,
            new_layout: ImageLayout::TransferDstOptimal,
            image,
        },
        Command::CopyBufferToImage { buffer, image, width, height },
        Command::ImageBarrier {
            src_stage: PipelineStage::Transfer,
            dst_stage: PipelineStage::BottomOfPipe,
            src_access: Access::TransferWrite,
            dst_access: Access::NoAccess,
            old_layout: ImageLayout::TransferDstOptimal,
            new_layout: ImageLayout::ShaderReadOnlyOptimal,
            image,
        },
    ]
}

/// Builds the command sequence [spec_upload_commands].
pub fn upload_commands(buffer: u64, image: u64, width: u32, height: u32) -> (r: Vec<Command>)
    ensures
        r@ == spec_upload_commands(buffer, image, width, height),
{
    let mut r = Vec::new();
    r.push(
        Command::ImageBarrier {
            src_stage: PipelineStage::TopOfPipe,
            dst_stage: PipelineStage::Transfer,
            src_access: Access::NoAccess,
            dst_access: Access::TransferWrite,
            old_layout: ImageLayout::Undefined,
            new_layout: ImageLayout::TransferDstOptimal,
            image,
        },
    );
    r.push(Command::CopyBufferToImage { buffer, image, width, height });
    r.push(
        Command::ImageBarrier {
            src_stage: PipelineStage::Transfer,
            dst_stage: PipelineStage::BottomOfPipe,
            src_access: Access::TransferWrite,
            dst_access: Access::NoAccess,
            old_layout: ImageLayout::TransferDstOptimal,
            new_layout: ImageLayout::ShaderReadOnlyOptimal,
            image,
        },
    );
    r
}

/// The capacity of a new loader's staging buffer, in bytes.
pub const INITIAL_TRANSFER_CAPACITY: u64 = 8;

/// What loading a decoded image takes: the image to create for it, its
/// size, its texels, and the staging buffer to grow into first, if any.
#[derive(Debug, PartialEq, Eq)]
pub struct ImageUpload {
    pub image: ImageDescription,
    pub width: u32,
    pub height: u32,
    pub texels: Vec<u8>,
    pub staging: Option<BufferDescription>,
}

/// The device-local, linear-color image, for sampling and for copying into,
/// that an image file of `width` by `height` pixels is loaded into.
pub open spec fn loaded_image(width: u32, height: u32) -> ImageDescription {
    texture_image(
        (width, height),
        FORMAT_R8G8B8A8_UNORM,
        IMAGE_USAGE_TRANSFER_DST | IMAGE_USAGE_SAMPLED,
        MEMORY_DEVICE_LOCAL,
    )
}

/// The staging buffer to grow into before `data_len` bytes are uploaded
/// through `transfer_buffer`, if any.
pub open spec fn staging_for(transfer_buffer: TransferBuffer, data_len: nat) -> Option<
    BufferDescription,
> {
    if data_len <= transfer_buffer.spec_capacity() {
        None
    } else {
        Some(staging_buffer(grown_capacity(transfer_buffer.spec_capacity(), data_len) as u64))
    }
}

/// Responsible for loading textures from files into usable GPU resources.
///
/// The loader owns the staging buffer through which texel data travels.
#[derive(Debug, Clone, Copy, PartialEq, Eq)]
pub struct TextureLoader {
    pub transfer_buffer: TransferBuffer,
}

impl TextureLoader {
    /// The staging buffer to create for a new loader:
    /// [INITIAL_TRANSFER_CAPACITY] bytes that the CPU writes.
    pub fn transfer_buffer_description() -> (r: BufferDescription)
        ensures
            r == staging_buffer(INITIAL_TRANSFER_CAPACITY),
    {
        TransferBuffer::buffer_description(INITIAL_TRANSFER_CAPACITY)
    }

    /// Creates the texture loader around the staging buffer and memory
    /// created as [TextureLoader::transfer_buffer_description] describes.
    pub fn new(buffer: u64, memory: u64) -> (r: Self)
        ensures
            r.transfer_buffer.spec_capacity() == INITIAL_TRANSFER_CAPACITY,
            r.transfer_buffer.spec_buffer() == buffer,
            r.transfer_buffer.spec_memory() == memory,
    {
        TextureLoader { transfer_buffer: TransferBuffer::new(buffer, memory, INITIAL_TRANSFER_CAPACITY) }
    }

    /// What loading a decoded image of `width` by `height` pixels with
    /// `texels` takes: a linear-color image of that size and the staging
    /// decision for the texels.
    pub fn prepare_upload(&self, width: u32, height: u32, texels: Vec<u8>) -> (r: ImageUpload)
        requires
            self.transfer_buffer.spec_can_hold(texels@.len()),
        ensures
            r.image == loaded_image(width, height),
            r.width == width,
            r.height == height,
            r.texels@ == texels@,
            r.staging == staging_for(self.transfer_buffer, texels@.len()),
            r.staging is None <==> texels@.len() <= self.transfer_buffer.spec_capacity(),
            r.staging matches Some(d) ==> d.size >= texels@.len() && d.size
                > self.transfer_buffer.spec_capacity(),
    {
        proof {
            lemma_staging_holds_texels(self.transfer_buffer, texels@.len());
        }
        let staging = self.transfer_buffer.upload_bytes(texels.len() as u64);
        let image = crate::graphics::texture::Texture::image_description(
            (width, height),
            FORMAT_R8G8B8A8_UNORM,
            IMAGE_USAGE_TRANSFER_DST | IMAGE_USAGE_SAMPLED,
            MEMORY_DEVICE_LOCAL,
        );
        ImageUpload { image, width, height, texels, staging }
    }

    /// Loads the contents of an image file whose name ends in `extension`:
    /// decodes them and says what the upload takes. Fails when they are not
    /// an image of that format, or when the staging buffer cannot grow to
    /// hold the texels.
    pub fn load_texture(&self, bytes: &[u8], extension: &str) -> (r: Result<ImageUpload, LoadError>)
        ensures
            match decoded_rgba8(bytes@, extension@) {
                None => r == Err::<ImageUpload, LoadError>(LoadError::Undecodable),
                Some((w, h, t)) => if self.transfer_buffer.spec_can_hold(t.len()) {
                    r matches Ok(u) && u.image == loaded_image(w, h) && u.width == w && u.height
                        == h && u.texels@ == t && u.staging == staging_for(
                        self.transfer_buffer,
                        t.len(),
                    )
                } else {
                    r == Err::<ImageUpload, LoadError>(LoadError::TooLarge)
                },
            },
    {
        match decode_rgba8(bytes, extension) {
            None => Err(LoadError::Undecodable),
            Some((width, height, texels)) => {
                if self.transfer_buffer.can_hold(texels.len() as u64) {
                    Ok(self.prepare_upload(width, height, texels))
                } else {
                    Err(LoadError::TooLarge)
                }
            },
        }
    }

    /// The commands that move the uploaded texels, already copied into the
    /// staging buffer, into `image`.
    pub fn upload_commands(&self, image: u64, width: u32, height: u32) -> (r: Vec<Command>)
        ensures
            r@ == spec_upload_commands(self.transfer_buffer.spec_buffer(), image, width, height),
    {
        upload_commands(self.transfer_buffer.buffer(), image, width, height)
    }
}

impl ImageUpload {
    /// The texture record of the image loaded from `path`, once its image
    /// and memory exist.
    pub fn texture(&self, path: String, image: u64, memory: u64) -> (r: Texture)
        ensures
            r.spec_path() == path@,
            r.spec_width() == self.width,
            r.spec_height() == self.height,
            r.spec_image() == image,
            r.spec_memory() == memory,
    {
        Texture::new(path, self.width, self.height, image, memory)
    }
}

/// The staging decision for `data_len` bytes is sound and no larger than
/// it needs to be: nothing is asked for exactly when the bytes fit the
/// current capacity; otherwise the buffer asked for holds them, is larger
/// than the current one, is the current capacity times a power of two, is
/// less than twice the bytes, and is a host-visible, coherent buffer that
/// transfers read from.
pub proof fn lemma_staging_holds_texels(transfer_buffer: TransferBuffer, data_len: nat)
    requires
        transfer_buffer.spec_can_hold(data_len),
    ensures
        staging_for(transfer_buffer, data_len) is None <==> data_len <= transfer_buffer.spec_capacity(),
        staging_for(transfer_buffer, data_len) matches Some(d) ==> {
            &&& d.size >= data_len
            &&& d.size > transfer_buffer.spec_capacity()
            &&& d.size < 2 * data_len
            &&& exists|k: nat| d.size == transfer_buffer.spec_capacity() * #[trigger] pow2(k)
            &&& d.usage == BUFFER_USAGE_TRANSFER_SRC
            &&& d.memory_properties == MEMORY_HOST_VISIBLE_COHERENT
        },
{
    if data_len > transfer_buffer.spec_capacity() {
        lemma_grown_capacity(transfer_buffer.spec_capacity(), data_len);
        assert(grown_capacity(transfer_buffer.spec_capacity(), data_len) <= u64::MAX);
    }
}

} // verus!
