//! Rendering helpers.
pub mod fullscreen_quad;
pub mod image_file;
pub mod particles;
pub mod recompiler;
pub mod renderpass;
pub mod sprites;
pub mod spirv;
pub mod texture;
pub mod texture_loader;
pub mod vulkan;
