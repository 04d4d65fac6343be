//! Plain-value descriptions of the Vulkan objects, descriptor updates and
//! commands that the renderer asks the driver for.
//!
//! Handles are the raw 64-bit values that Vulkan gives out; the value 0 is
//! the null handle.
use vstd::prelude::*;

verus! {

/// The null handle.
pub const NULL_HANDLE: u64 = 0;

/// A two-dimensional size in pixels.
#[derive(Debug, Clone, Copy, PartialEq, Eq)]
pub struct Extent2D {
    pub width: u32,
    pub height: u32,
}

/// `VK_FORMAT_R8G8B8A8_UNORM`.
pub const FORMAT_R8G8B8A8_UNORM: i32 = 37;

/// `VK_FORMAT_R8G8B8A8_SRGB`.
pub const FORMAT_R8G8B8A8_SRGB: i32 = 43;

/// `VK_IMAGE_USAGE_TRANSFER_DST_BIT`.
pub const IMAGE_USAGE_TRANSFER_DST: u32 = 2;

/// `VK_IMAGE_USAGE_SAMPLED_BIT`.
pub const IMAGE_USAGE_SAMPLED: u32 = 4;

/// `VK_BUFFER_USAGE_TRANSFER_SRC_BIT`.
pub const BUFFER_USAGE_TRANSFER_SRC: u32 = 1;

/// `VK_BUFFER_USAGE_UNIFORM_BUFFER_BIT`.
pub const BUFFER_USAGE_UNIFORM_BUFFER: u32 = 16;

/// `VK_BUFFER_USAGE_STORAGE_BUFFER_BIT`.
pub const BUFFER_USAGE_STORAGE_BUFFER: u32 = 32;

/// `VK_MEMORY_PROPERTY_DEVICE_LOCAL_BIT`.
pub const MEMORY_DEVICE_LOCAL: u32 = 1;

/// `VK_MEMORY_PROPERTY_HOST_VISIBLE_BIT | VK_MEMORY_PROPERTY_HOST_COHERENT_BIT`:
/// memory that the CPU writes through a mapping without flushing.
pub const MEMORY_HOST_VISIBLE_COHERENT: u32 = 6;

/// Everything needed to create a two-dimensional, single-sample image with
/// optimal tiling, owned by the graphics queue family alone, and to back it
/// with memory.
#[derive(Debug, Clone, Copy, PartialEq, Eq)]
pub struct ImageDescription {
    pub format: i32,
    pub width: u32,
    pub height: u32,
    pub mip_levels: u32,
    pub array_layers: u32,
    pub usage: u32,
    pub initial_layout: ImageLayout,
    pub memory_properties: u32,
}

/// Everything needed to create a two-dimensional color view of `image`
/// covering `level_count` mip levels and `layer_count` layers from the first.
#[derive(Debug, Clone, Copy, PartialEq, Eq)]
pub struct ImageViewDescription {
    pub image: u64,
    pub format: i32,
    pub level_count: u32,
    pub layer_count: u32,
}

/// Everything needed to create a buffer owned by the graphics queue family
/// alone, and to back it with memory.
#[derive(Debug, Clone, Copy, PartialEq, Eq)]
pub struct BufferDescription {
    pub size: u64,
    pub usage: u32,
    pub memory_properties: u32,
}

/// A buffer of `size` bytes that the CPU writes and the GPU copies from.
pub open spec fn staging_buffer(size: u64) -> BufferDescription {
    BufferDescription {
        size,
        usage: BUFFER_USAGE_TRANSFER_SRC,
        memory_properties: MEMORY_HOST_VISIBLE_COHERENT,
    }
}

/// Builds [staging_buffer].
pub fn staging_buffer_description(size: u64) -> (r: BufferDescription)
    ensures
        r == staging_buffer(size),
{
    BufferDescription {
        size,
        usage: BUFFER_USAGE_TRANSFER_SRC,
        memory_properties: MEMORY_HOST_VISIBLE_COHERENT,
    }
}

/// How a sampler filters texels, or picks mip levels.
#[derive(Debug, Clone, Copy, PartialEq, Eq)]
pub enum Filter {
    Linear,
    Nearest,
}

/// What a sampler reads outside the texture.
#[derive(Debug, Clone, Copy, PartialEq, Eq)]
pub enum AddressMode {
    ClampToEdge,
    Repeat,
}

/// Everything needed to create a sampler: its filter for magnification and
/// minification, its mipmap mode, one address mode for all three axes,
/// whether it filters anisotropically (as far as the device allows), and
/// whether its level of detail is left unclamped (otherwise it is clamped to
/// the first level). It never compares, adds no level-of-detail bias and
/// uses normalized coordinates.
#[derive(Debug, Clone, Copy, PartialEq, Eq)]
pub struct SamplerDescription {
    pub filter: Filter,
    pub mipmap_mode: Filter,
    pub address_mode: AddressMode,
    pub anisotropy: bool,
    pub unclamped_lod: bool,
}

/// Where a graphics pipeline draws: fixed to the whole of an extent, or
/// wherever viewport and scissor commands set before drawing.
#[derive(Debug, Clone, Copy, PartialEq, Eq)]
pub enum ViewportState {
    Fixed(Extent2D),
    Dynamic,
}

/// Everything needed to create a graphics pipeline that draws triangle lists
/// without vertex buffers, culls nothing, and writes one color attachment:
/// the layout, the render pass and subpass, the two shader modules (both
/// entered at `main`), the viewport, and whether colors are blended by
/// their alpha (source alpha over one minus source alpha).
#[derive(Debug, Clone, Copy, PartialEq, Eq)]
pub struct GraphicsPipelineDescription {
    pub layout: u64,
    pub render_pass: u64,
    pub subpass: u32,
    pub vertex_shader: u64,
    pub fragment_shader: u64,
    pub viewport: ViewportState,
    pub alpha_blend: bool,
}

/// Everything needed to create a compute pipeline: its layout and its
/// shader module, entered at `main`.
#[derive(Debug, Clone, Copy, PartialEq, Eq)]
pub struct ComputePipelineDescription {
    pub layout: u64,
    pub shader: u64,
}

/// The alpha-blended pipeline of subpass 0 of `render_pass` that the
/// renderer uses for everything it draws.
pub open spec fn blended_pipeline(
    layout: u64,
    render_pass: u64,
    vertex_shader: u64,
    fragment_shader: u64,
    viewport: ViewportState,
) -> GraphicsPipelineDescription {
    GraphicsPipelineDescription {
        layout,
        render_pass,
        subpass: 0,
        vertex_shader,
        fragment_shader,
        viewport,
        alpha_blend: true,
    }
}

/// Builds [blended_pipeline].
pub fn blended_pipeline_description(
    layout: u64,
    render_pass: u64,
    vertex_shader: u64,
    fragment_shader: u64,
    viewport: ViewportState,
) -> (r: GraphicsPipelineDescription)
    ensures
        r == blended_pipeline(layout, render_pass, vertex_shader, fragment_shader, viewport),
{
    GraphicsPipelineDescription {
        layout,
        render_pass,
        subpass: 0,
        vertex_shader,
        fragment_shader,
        viewport,
        alpha_blend: true,
    }
}

/// The kinds of descriptor that the renderer uses.
#[derive(Debug, Clone, Copy, PartialEq, Eq)]
pub enum DescriptorType {
    Sampler,
    SampledImage,
    UniformBuffer,
    StorageBuffer,
}

/// The shader stages that may read a descriptor binding.
#[derive(Debug, Clone, Copy, PartialEq, Eq)]
pub enum ShaderStages {
    Vertex,
    Fragment,
    Compute,
    VertexAndFragment,
    All,
}

/// Room for `descriptor_count` descriptors of one type in a descriptor pool.
#[derive(Debug, Clone, Copy, PartialEq, Eq)]
pub struct DescriptorPoolSize {
    pub ty: DescriptorType,
    pub descriptor_count: u32,
}

/// Everything needed to create a descriptor pool.
#[derive(Debug, PartialEq, Eq)]
pub struct DescriptorPoolInfo {
    pub max_sets: u32,
    pub pool_sizes: Vec<DescriptorPoolSize>,
}

/// A request for descriptor sets from a pool, one for each entry of
/// `set_layouts`.
#[derive(Debug, PartialEq, Eq)]
pub struct DescriptorSetAllocateInfo {
    pub descriptor_pool: u64,
    pub set_layouts: Vec<u64>,
}

/// One binding of a descriptor set layout.
#[derive(Debug, PartialEq, Eq)]
pub struct DescriptorSetLayoutBinding {
    pub binding: u32,
    pub descriptor_type: DescriptorType,
    pub descriptor_count: u32,
    pub stage_flags: ShaderStages,
    /// Samplers baked into the layout; empty when there are none.
    pub immutable_samplers: Vec<u64>,
}

/// A range of a buffer that a descriptor refers to.
#[derive(Debug, Clone, Copy, PartialEq, Eq)]
pub struct BufferInfo {
    pub buffer: u64,
    pub offset: u64,
    pub range: u64,
}

/// The layouts that an image moves through.
#[derive(Debug, Clone, Copy, PartialEq, Eq)]
pub enum ImageLayout {
    Undefined,
    TransferDstOptimal,
    ShaderReadOnlyOptimal,
    ColorAttachmentOptimal,
    PresentSrc,
}

/// A sampler and image view that a descriptor refers to.
#[derive(Debug, Clone, Copy, PartialEq, Eq)]
pub struct ImageInfo {
    pub sampler: u64,
    pub image_view: u64,
    pub image_layout: ImageLayout,
}

/// An update of one binding of a descriptor set, starting at array element 0.
///
/// Buffer descriptors carry their ranges in `buffer_infos`, image and sampler
/// descriptors carry theirs in `image_infos`; the number of descriptors
/// written is the length of the list that is used.
#[derive(Debug, PartialEq, Eq)]
pub struct DescriptorWrite {
    pub dst_set: u64,
    pub dst_binding: u32,
    pub descriptor_type: DescriptorType,
    pub buffer_infos: Vec<BufferInfo>,
    pub image_infos: Vec<ImageInfo>,
}

/// Where a pipeline is bound.
#[derive(Debug, Clone, Copy, PartialEq, Eq)]
pub enum PipelineBindPoint {
    Graphics,
    Compute,
}

/// The pipeline stages that barriers and subpass dependencies name.
#[derive(Debug, Clone, Copy, PartialEq, Eq)]
pub enum PipelineStage {
    TopOfPipe,
    Transfer,
    VertexShader,
    ComputeShader,
    ColorAttachmentOutput,
    BottomOfPipe,
}

/// The memory accesses that barriers and subpass dependencies name.
#[derive(Debug, Clone, Copy, PartialEq, Eq)]
pub enum Access {
    NoAccess,
    ShaderRead,
    ShaderWrite,
    TransferWrite,
    ColorAttachmentWrite,
}

/// A command recorded into a command buffer.
#[derive(Debug, PartialEq, Eq)]
pub enum Command {
    BindPipeline { bind_point: PipelineBindPoint, pipeline: u64 },
    BindDescriptorSets {
        bind_point: PipelineBindPoint,
        layout: u64,
        first_set: u32,
        descriptor_sets: Vec<u64>,
    },
    Draw { vertex_count: u32, instance_count: u32 },
    Dispatch { group_count_x: u32, group_count_y: u32, group_count_z: u32 },
    /// A barrier on the whole of `buffer`, which is `size` bytes long.
    BufferBarrier {
        src_stage: PipelineStage,
        dst_stage: PipelineStage,
        src_access: Access,
        dst_access: Access,
        buffer: u64,
        size: u64,
    },
    /// A layout transition of the single color mip level and layer of `image`.
    ImageBarrier {
        src_stage: PipelineStage,
        dst_stage: PipelineStage,
        src_access: Access,
        dst_access: Access,
        old_layout: ImageLayout,
        new_layout: ImageLayout,
        image: u64,
    },
    /// The start of a render pass that draws into all of `framebuffer`,
    /// clearing its color attachment first.
    BeginRenderPass { render_pass: u64, framebuffer: u64, width: u32, height: u32 },
    EndRenderPass,
    /// A copy of tightly packed texels from offset 0 of `buffer` into the
    /// whole of the color mip level 0 of `image`.
    CopyBufferToImage { buffer: u64, image: u64, width: u32, height: u32 },
}

/// `b` is binding number `binding`: `count` descriptors of type `ty` that the
/// stages `stages` read, with no immutable samplers.
pub open spec fn is_layout_binding(
    b: DescriptorSetLayoutBinding,
    binding: u32,
    ty: DescriptorType,
    count: u32,
    stages: ShaderStages,
) -> bool {
    &&& b.binding == binding
    &&& b.descriptor_type == ty
    &&& b.descriptor_count == count
    &&& b.stage_flags == stages
    &&& b.immutable_samplers@.len() == 0
}

/// `w` writes the single buffer range `info` to binding `dst_binding` of `dst_set`.
pub open spec fn is_buffer_write(
    w: DescriptorWrite,
    dst_set: u64,
    dst_binding: u32,
    descriptor_type: DescriptorType,
    info: BufferInfo,
) -> bool {
    &&& w.dst_set == dst_set
    &&& w.dst_binding == dst_binding
    &&& w.descriptor_type == descriptor_type
    &&& w.buffer_infos@ == seq![info]
    &&& w.image_infos@.len() == 0
}

/// `w` writes the image descriptors `infos` to binding `dst_binding` of `dst_set`.
pub open spec fn is_image_write(
    w: DescriptorWrite,
    dst_set: u64,
    dst_binding: u32,
    descriptor_type: DescriptorType,
    infos: Seq<ImageInfo>,
) -> bool {
    &&& w.dst_set == dst_set
    &&& w.dst_binding == dst_binding
    &&& w.descriptor_type == descriptor_type
    &&& w.buffer_infos@.len() == 0
    &&& w.image_infos@ == infos
}

/// `c` binds the descriptor sets `sets`, starting at set number `first_set`.
pub open spec fn is_bind_sets(
    c: Command,
    bind_point: PipelineBindPoint,
    layout: u64,
    first_set: u32,
    sets: Seq<u64>,
) -> bool {
    &&& c matches Command::BindDescriptorSets { bind_point: bp, layout: l, first_set: f, descriptor_sets }
    &&& bp == bind_point
    &&& l == layout
    &&& f == first_set
    &&& descriptor_sets@ == sets
}

/// A layout binding without immutable samplers.
pub fn layout_binding(
    binding: u32,
    descriptor_type: DescriptorType,
    descriptor_count: u32,
    stage_flags: ShaderStages,
) -> (b: DescriptorSetLayoutBinding)
    ensures
        is_layout_binding(b, binding, descriptor_type, descriptor_count, stage_flags),
{
    DescriptorSetLayoutBinding {
        binding,
        descriptor_type,
        descriptor_count,
        stage_flags,
        immutable_samplers: Vec::new(),
    }
}

/// A request for `count` descriptor sets of layout `layout` from `pool`.
pub fn allocate_info(pool: u64, layout: u64, count: usize) -> (r: DescriptorSetAllocateInfo)
    ensures
        r.descriptor_pool == pool,
        r.set_layouts@ == Seq::new(count as nat, |_i: int| layout),
{
    DescriptorSetAllocateInfo { descriptor_pool: pool, set_layouts: repeated_layouts(layout, count) }
}

/// A descriptor write of the single buffer range `info`.
pub fn buffer_write(
    dst_set: u64,
    dst_binding: u32,
    descriptor_type: DescriptorType,
    info: BufferInfo,
) -> (w: DescriptorWrite)
    ensures
        is_buffer_write(w, dst_set, dst_binding, descriptor_type, info),
{
    let mut buffer_infos = Vec::new();
    buffer_infos.push(info);
    DescriptorWrite { dst_set, dst_binding, descriptor_type, buffer_infos, image_infos: Vec::new() }
}

/// A descriptor write of the single image descriptor `info`.
pub fn image_write(
    dst_set: u64,
    dst_binding: u32,
    descriptor_type: DescriptorType,
    info: ImageInfo,
) -> (w: DescriptorWrite)
    ensures
        is_image_write(w, dst_set, dst_binding, descriptor_type, seq![info]),
{
    let mut image_infos = Vec::new();
    image_infos.push(info);
    DescriptorWrite { dst_set, dst_binding, descriptor_type, buffer_infos: Vec::new(), image_infos }
}

/// A command that binds `sets`, starting at set number `first_set`.
pub fn bind_sets(
    bind_point: PipelineBindPoint,
    layout: u64,
    first_set: u32,
    sets: Vec<u64>,
) -> (c: Command)
    ensures
        is_bind_sets(c, bind_point, layout, first_set, sets@),
{
    Command::BindDescriptorSets { bind_point, layout, first_set, descriptor_sets: sets }
}

/// `n` copies of the layout handle `layout`, one for each descriptor set to
/// allocate from it.
pub fn repeated_layouts(layout: u64, n: usize) -> (r: Vec<u64>)
    ensures
        r@ == Seq::new(n as nat, |_i: int| layout),
{
    let mut r = Vec::new();
    let mut i: usize = 0;
    while i < n
        invariant
            i <= n,
            r@ == Seq::new(i as nat, |_i: int| layout),
        decreases n - i,
    {
        r.push(layout);
        i = i + 1;
        proof {
            assert(r@ =~= Seq::new(i as nat, |_i: int| layout));
        }
    }
    r
}

/// Memory type `i` is one that `type_bits` allows and that has every
/// property flag of `required`.
pub open spec fn memory_type_fits(type_bits: u32, properties: Seq<u32>, required: u32, i: int) -> bool {
    &&& (type_bits >> (i as u32)) & 1 == 1
    &&& properties[i] & required == required
}

/// The first memory type, by index, that `type_bits` allows and that has
/// every property flag of `required`; `type_properties` holds the property
/// flags of the device's memory types in index order.
pub fn find_memory_type(type_bits: u32, type_properties: &Vec<u32>, required: u32) -> (r: Option<u32>)
    requires
        type_properties@.len() <= 32,
    ensures
        r matches Some(i) ==> {
            &&& i < type_properties@.len()
            &&& memory_type_fits(type_bits, type_properties@, required, i as int)
            &&& forall|j: int|
                0 <= j < i ==> !memory_type_fits(type_bits, type_properties@, required, j)
        },
        r is None ==> forall|j: int|
            0 <= j < type_properties@.len() ==> !memory_type_fits(
                type_bits,
                type_properties@,
                required,
                j,
            ),
{
    let mut i: usize = 0;
    while i < type_properties.len()
        invariant
            i <= type_properties@.len(),
            type_properties@.len() <= 32,
            forall|j: int|
                0 <= j < i ==> !memory_type_fits(type_bits, type_properties@, required, j),
        decreases type_properties@.len() - i,
    {
        let index = i as u32;
        if (type_bits >> index) & 1 == 1 && type_properties[i] & required == required {
            return Some(index);
        }
        i = i + 1;
    }
    None
}

} // verus!
