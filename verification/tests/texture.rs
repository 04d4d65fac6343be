use shader_toy_slang::graphics::texture::texture_loader::{
    LoadError, TextureLoader as AtlasTextureLoader,
};
use shader_toy_slang::graphics::texture::Texture;
use shader_toy_slang::graphics::texture_loader::texture::Texture as LoadedTexture;
use shader_toy_slang::graphics::texture_loader::TextureLoader;
use shader_toy_slang::graphics::vulkan::{
    Access, BufferDescription, Command, Extent2D, ImageDescription, ImageLayout,
    ImageViewDescription, PipelineStage,
};

fn expected_upload(buffer: u64, image: u64, width: u32, height: u32) -> Vec<Command> {
    vec![
        Command::ImageBarrier {
            src_stage: PipelineStage::TopOfPipe,
            dst_stage: PipelineStage::Transfer,
            src_access: Access::NoAccess,
            dst_access: Access::TransferWrite,
            old_layout: ImageLayout::Undefined,
            new_layout: ImageLayout::TransferDstOptimal,
            image,
        },
        Command::CopyBufferToImage { buffer, image, width, height },
        Command::ImageBarrier {
            src_stage: PipelineStage::Transfer,
            dst_stage: PipelineStage::BottomOfPipe,
            src_access: Access::TransferWrite,
            dst_access: Access::NoAccess,
            old_layout: ImageLayout::TransferDstOptimal,
            new_layout: ImageLayout::ShaderReadOnlyOptimal,
            image,
        },
    ]
}

fn image(format: i32, width: u32, height: u32) -> ImageDescription {
    ImageDescription {
        format,
        width,
        height,
        mip_levels: 1,
        array_layers: 1,
        usage: 2 | 4,
        initial_layout: ImageLayout::Undefined,
        memory_properties: 1,
    }
}

/// A binary PPM image of two by one pixels: red, then blue.
fn two_pixel_ppm() -> Vec<u8> {
    let mut bytes = b"P6\n2 1\n255\n".to_vec();
    bytes.extend_from_slice(&[255, 0, 0, 0, 0, 255]);
    bytes
}

#[test]
fn texture_reports_its_dimensions_and_handles() {
    let texture = Texture::new("sky".to_string(), (640, 480), 10, 11, 12);
    assert_eq!(texture.width(), 640);
    assert_eq!(texture.height(), 480);
    assert_eq!(texture.extent(), Extent2D { width: 640, height: 480 });
    assert_eq!(texture.image(), 10);
    assert_eq!(texture.view(), 11);
    assert_eq!(texture.memory(), 12);
}

#[test]
fn texture_describes_its_image_and_view() {
    assert_eq!(Texture::image_description((640, 480), 43, 6, 1), image(43, 640, 480));
    assert_eq!(
        Texture::view_description(10, 43),
        ImageViewDescription { image: 10, format: 43, level_count: 1, layer_count: 1 }
    );
}

#[test]
fn loaded_texture_reports_its_dimensions_and_handles() {
    let texture = LoadedTexture::new("a.png".to_string(), 3, 5, 20, 21);
    assert_eq!(texture.width(), 3);
    assert_eq!(texture.height(), 5);
    assert_eq!(texture.extent(), Extent2D { width: 3, height: 5 });
    assert_eq!(texture.image(), 20);
    assert_eq!(texture.memory(), 21);
}

#[test]
fn load_texture_decodes_into_a_linear_color_image() {
    let loader = TextureLoader::new(77, 78);
    let upload = loader.load_texture(&two_pixel_ppm(), "ppm").unwrap();
    assert_eq!(upload.image, image(37, 2, 1));
    assert_eq!((upload.width, upload.height), (2, 1));
    assert_eq!(upload.texels, vec![255, 0, 0, 255, 0, 0, 255, 255]);
    assert_eq!(upload.staging, None);
    let texture = upload.texture("a.ppm".to_string(), 5, 6);
    assert_eq!((texture.width(), texture.height(), texture.image(), texture.memory()), (2, 1, 5, 6));
    assert_eq!(loader.upload_commands(5, 2, 1), expected_upload(77, 5, 2, 1));
}

#[test]
fn load_texture_grows_the_staging_buffer_for_larger_images() {
    let loader = TextureLoader::new(77, 78);
    let mut bytes = b"P6\n3 1\n255\n".to_vec();
    bytes.extend_from_slice(&[1, 2, 3, 4, 5, 6, 7, 8, 9]);
    let upload = loader.load_texture(&bytes, "PPM").unwrap();
    assert_eq!(upload.texels.len(), 12);
    assert_eq!(
        upload.staging,
        Some(BufferDescription { size: 16, usage: 1, memory_properties: 6 })
    );
}

#[test]
fn load_texture_refuses_what_does_not_decode() {
    let loader = TextureLoader::new(77, 78);
    assert_eq!(loader.load_texture(b"not an image", "ppm"), Err(LoadError::Undecodable));
    assert_eq!(loader.load_texture(&two_pixel_ppm(), "unknown"), Err(LoadError::Undecodable));
    assert_eq!(loader.load_texture(&two_pixel_ppm(), ""), Err(LoadError::Undecodable));
}

#[test]
fn load_from_file_decodes_into_an_srgb_image() {
    let loader = AtlasTextureLoader::new(31);
    let upload = loader.load_from_file(&two_pixel_ppm(), "ppm").unwrap();
    assert_eq!(upload.image, image(43, 2, 1));
    assert_eq!(upload.texels, vec![255, 0, 0, 255, 0, 0, 255, 255]);
    assert_eq!(upload.staging, None);
    let texture = upload.texture("a.ppm".to_string(), 6, 7, 8);
    assert_eq!(texture.extent(), Extent2D { width: 2, height: 1 });
    assert_eq!(texture.view(), 7);
    assert_eq!(loader.upload_commands(6, 2, 1), expected_upload(31, 6, 2, 1));
    assert_eq!(loader.load_from_file(&[0, 1, 2], "ppm"), Err(LoadError::Undecodable));
}

#[test]
fn atlas_texture_loader_starts_with_a_one_mebibyte_staging_buffer() {
    let loader = AtlasTextureLoader::new(31);
    assert_eq!(loader.transfer_buffer.capacity(), 1024 * 1024);
    assert_eq!(loader.transfer_buffer.buffer(), 31);
    assert_eq!(
        AtlasTextureLoader::transfer_buffer_description(),
        BufferDescription { size: 1024 * 1024, usage: 1, memory_properties: 6 }
    );
}
