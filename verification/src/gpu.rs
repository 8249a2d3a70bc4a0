//! Plain-value descriptions of the GPU resources the viewer needs.
//!
//! The library decides what is created and how the pieces must agree; the
//! application creates it. Each type here carries exactly the choices that
//! are made on the host, in a form that converts one for one into the
//! graphics API's own descriptors.

use vstd::prelude::*;

verus! {

/// Texel formats the viewer tells apart. Any other format is `Other`.
#[derive(Clone, Copy, Debug, PartialEq, Eq)]
pub enum TextureFormat {
    Rgba8Unorm,
    Bgra8Unorm,
    Rgba32Float,
    Other,
}

impl TextureFormat {
    /// Whether the display pass can present into a surface of this format.
    pub open spec fn presentable(self) -> bool {
        self is Rgba8Unorm || self is Bgra8Unorm
    }

    /// Whether a sampler may filter textures of this format. The 32-bit float
    /// format may only be read texel by texel.
    pub open spec fn filterable(self) -> bool {
        self is Rgba8Unorm || self is Bgra8Unorm
    }

    /// Whether a shader may write this format through a storage binding.
    pub open spec fn storable(self) -> bool {
        self is Rgba8Unorm || self is Rgba32Float
    }
}

/// What a texture may be used for.
#[derive(Clone, Copy, Debug, PartialEq, Eq)]
pub struct TextureUsages {
    pub copy_src: bool,
    pub copy_dst: bool,
    pub texture_binding: bool,
    pub storage_binding: bool,
    pub render_attachment: bool,
}

/// A two-dimensional texture.
#[derive(Clone, Copy, Debug, PartialEq, Eq)]
pub struct TextureDescriptor {
    pub width: u32,
    pub height: u32,
    pub depth_or_array_layers: u32,
    pub mip_level_count: u32,
    pub sample_count: u32,
    pub format: TextureFormat,
    pub usage: TextureUsages,
}

/// The shader stage that sees a binding.
#[derive(Clone, Copy, Debug, PartialEq, Eq)]
pub enum ShaderStage {
    Vertex,
    Fragment,
    Compute,
}

/// What kind of resource a binding slot takes.
#[derive(Clone, Copy, Debug, PartialEq, Eq)]
pub enum BindingType {
    /// A uniform buffer bound whole, at a fixed offset.
    UniformBuffer,
    /// A two-dimensional, single-sampled float texture that is read.
    SampledTexture { filterable: bool },
    /// A two-dimensional storage texture that is only written.
    WriteOnlyStorageTexture { format: TextureFormat },
}

/// One slot of a bind group layout.
#[derive(Clone, Copy, Debug, PartialEq, Eq)]
pub struct BindGroupLayoutEntry {
    pub binding: u32,
    pub visibility: ShaderStage,
    pub ty: BindingType,
}

/// The layout shared by both bind groups of the display pass.
#[derive(Clone, Copy, Debug, PartialEq, Eq)]
pub struct BindGroupLayoutDescriptor {
    pub entries: [BindGroupLayoutEntry; 3],
}

/// What is put into a binding slot.
#[derive(Clone, Copy, Debug, PartialEq, Eq)]
pub enum BindingResource {
    /// The uniform buffer, from offset zero to its end.
    UniformBuffer,
    /// The default view of the accumulation buffer with this index.
    SampleView(usize),
}

/// One slot of a bind group, filled.
#[derive(Clone, Copy, Debug, PartialEq, Eq)]
pub struct BindGroupEntry {
    pub binding: u32,
    pub resource: BindingResource,
}

/// One of the two bind groups of the display pass.
#[derive(Clone, Copy, Debug, PartialEq, Eq)]
pub struct BindGroupDescriptor {
    pub entries: [BindGroupEntry; 3],
}

/// Whether `entry` may fill `slot` when `textures` are the accumulation
/// buffers: the binding numbers agree, the resource is of the kind the slot
/// takes, and a texture behind it was created for that use and in a format
/// the slot accepts.
pub open spec fn entry_fits(
    entry: BindGroupEntry,
    slot: BindGroupLayoutEntry,
    textures: Seq<TextureDescriptor>,
) -> bool {
    &&& entry.binding == slot.binding
    &&& match (slot.ty, entry.resource) {
        (BindingType::UniformBuffer, BindingResource::UniformBuffer) => true,
        (BindingType::SampledTexture { filterable }, BindingResource::SampleView(t)) => {
            &&& t < textures.len()
            &&& textures[t as int].usage.texture_binding
            &&& textures[t as int].sample_count == 1
            &&& filterable ==> textures[t as int].format.filterable()
        },
        (BindingType::WriteOnlyStorageTexture { format }, BindingResource::SampleView(t)) => {
            &&& t < textures.len()
            &&& textures[t as int].usage.storage_binding
            &&& textures[t as int].format == format
            &&& format.storable()
        },
        _ => false,
    }
}

impl BindGroupDescriptor {
    /// Whether this group may be created under `layout` over `textures`:
    /// every slot of the layout is filled, in order, by an entry that fits.
    pub open spec fn conforms_to(
        self,
        layout: BindGroupLayoutDescriptor,
        textures: Seq<TextureDescriptor>,
    ) -> bool {
        forall|i: int| 0 <= i < 3 ==> entry_fits(#[trigger] self.entries[i], layout.entries[i], textures)
    }

    /// The accumulation buffers this group reads: those bound to a slot of
    /// `layout` that takes a sampled texture.
    pub open spec fn reads(self, layout: BindGroupLayoutDescriptor) -> Set<usize> {
        Set::new(
            |t: usize|
                exists|i: int|
                    0 <= i < 3 && layout.entries[i].ty is SampledTexture
                        && #[trigger] self.entries[i].resource == BindingResource::SampleView(t),
        )
    }

    /// The accumulation buffers this group writes: those bound to a slot of
    /// `layout` that takes a storage texture.
    pub open spec fn writes(self, layout: BindGroupLayoutDescriptor) -> Set<usize> {
        Set::new(
            |t: usize|
                exists|i: int|
                    0 <= i < 3 && layout.entries[i].ty is WriteOnlyStorageTexture
                        && #[trigger] self.entries[i].resource == BindingResource::SampleView(t),
        )
    }
}

/// How primitives are assembled from vertices.
#[derive(Clone, Copy, Debug, PartialEq, Eq)]
pub enum PrimitiveTopology {
    PointList,
    LineList,
    LineStrip,
    TriangleList,
    TriangleStrip,
}

/// Which winding order faces the viewer.
#[derive(Clone, Copy, Debug, PartialEq, Eq)]
pub enum FrontFace {
    Ccw,
    Cw,
}

/// The render pipeline of the display pass.
#[derive(Clone, Copy, Debug, PartialEq, Eq)]
pub struct RenderPipelineDescriptor {
    pub vertex_entry_point: &'static str,
    pub fragment_entry_point: &'static str,
    pub topology: PrimitiveTopology,
    pub front_face: FrontFace,
    pub target_format: TextureFormat,
    pub sample_count: u32,
}

} // verus!
