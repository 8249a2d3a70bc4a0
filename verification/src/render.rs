//! The frame driver of the display pass.
//!
//! Once per displayed frame the driver fills the uniform block from the
//! camera and the frame counter, picks the bind group for the counter's
//! parity, and only then counts the frame. The block that is uploaded
//! therefore carries the number of samples accumulated so far, which is what
//! the GPU program weighs the new sample against.

use vstd::prelude::*;
use crate::accumulation::{
    bind_group_entries, counter_modulus, lemma_frames_since_reset, read_slot, sample_textures,
    write_slot, AccumulationState, AccumulationView, FrameBinding, READ_BINDING, UNIFORM_BINDING,
    WRITE_BINDING,
};
use crate::gpu::{
    entry_fits, BindGroupDescriptor, BindGroupLayoutDescriptor, BindGroupLayoutEntry, BindingType,
    FrontFace, PrimitiveTopology, RenderPipelineDescriptor, ShaderStage, TextureFormat,
};
use crate::uniforms::{native_image, CameraUniforms, Uniforms, UNIFORM_BYTES};

verus! {

/// Vertices drawn per frame: two triangles that cover the viewport.
pub const DISPLAY_VERTICES: u32 = 6;

/// Instances drawn per frame.
pub const DISPLAY_INSTANCES: u32 = 1;

/// The slots of the display pass's bind group layout, all seen by the
/// fragment stage: the uniform block, the buffer that is read texel by texel,
/// and the buffer that is written as 32-bit float storage.
pub open spec fn display_layout_entries() -> Seq<BindGroupLayoutEntry> {
    seq![
        BindGroupLayoutEntry {
            binding: UNIFORM_BINDING,
            visibility: ShaderStage::Fragment,
            ty: BindingType::UniformBuffer,
        },
        BindGroupLayoutEntry {
            binding: READ_BINDING,
            visibility: ShaderStage::Fragment,
            ty: BindingType::SampledTexture { filterable: false },
        },
        BindGroupLayoutEntry {
            binding: WRITE_BINDING,
            visibility: ShaderStage::Fragment,
            ty: BindingType::WriteOnlyStorageTexture { format: TextureFormat::Rgba32Float },
        },
    ]
}

/// The display pipeline for a surface of the given format: a list of
/// counter-clockwise triangles, single-sampled, drawn by the stages
/// `display_vs` and `display_fs` into one target that is overwritten.
pub open spec fn display_pipeline(surface_format: TextureFormat) -> RenderPipelineDescriptor {
    RenderPipelineDescriptor {
        vertex_entry_point: "display_vs",
        fragment_entry_point: "display_fs",
        topology: PrimitiveTopology::TriangleList,
        front_face: FrontFace::Ccw,
        target_format: surface_format,
        sample_count: 1,
    }
}

/// Describes the display pipeline and the bind group layout it uses.
pub fn create_display_pipeline(surface_format: TextureFormat) -> (created: (
    RenderPipelineDescriptor,
    BindGroupLayoutDescriptor,
))
    ensures
        created.0 == display_pipeline(surface_format),
        created.1.entries@ == display_layout_entries(),
{
    let layout = BindGroupLayoutDescriptor {
        entries: [
            BindGroupLayoutEntry {
                binding: UNIFORM_BINDING,
                visibility: ShaderStage::Fragment,
                ty: BindingType::UniformBuffer,
            },
            BindGroupLayoutEntry {
                binding: READ_BINDING,
                visibility: ShaderStage::Fragment,
                ty: BindingType::SampledTexture { filterable: false },
            },
            BindGroupLayoutEntry {
                binding: WRITE_BINDING,
                visibility: ShaderStage::Fragment,
                ty: BindingType::WriteOnlyStorageTexture { format: TextureFormat::Rgba32Float },
            },
        ],
    };
    assert(layout.entries@ =~= display_layout_entries());
    let pipeline = RenderPipelineDescriptor {
        vertex_entry_point: "display_vs",
        fragment_entry_point: "display_fs",
        topology: PrimitiveTopology::TriangleList,
        front_face: FrontFace::Ccw,
        target_format: surface_format,
        sample_count: 1,
    };
    (pipeline, layout)
}

/// Whatever the output size, the bind group of either parity can be created
/// under the display layout over the accumulation buffers: each slot gets a
/// resource of its kind, and the buffers were created for both roles, in the
/// format the storage slot names and unfiltered as the sampled slot asks.
pub proof fn lemma_bind_groups_conform(
    group: BindGroupDescriptor,
    layout: BindGroupLayoutDescriptor,
    parity: nat,
    width: nat,
    height: nat,
)
    requires
        parity < 2,
        group.entries@ == bind_group_entries(parity),
        layout.entries@ == display_layout_entries(),
    ensures
        group.conforms_to(layout, sample_textures(width, height)),
        group.reads(layout) == set![read_slot(parity) as usize],
        group.writes(layout) == set![write_slot(parity) as usize],
        group.reads(layout).disjoint(group.writes(layout)),
{
    let textures = sample_textures(width, height);
    assert forall|i: int| 0 <= i < 3 implies entry_fits(
        #[trigger] group.entries[i],
        layout.entries[i],
        textures,
    ) by {
        assert(group.entries[i] == bind_group_entries(parity)[i]);
        assert(layout.entries[i] == display_layout_entries()[i]);
    }
    assert(group.entries[0] == bind_group_entries(parity)[0]);
    assert(group.entries[1] == bind_group_entries(parity)[1]);
    assert(group.entries[2] == bind_group_entries(parity)[2]);
    assert(layout.entries[0] == display_layout_entries()[0]);
    assert(layout.entries[1] == display_layout_entries()[1]);
    assert(layout.entries[2] == display_layout_entries()[2]);
    assert(group.reads(layout) =~= set![read_slot(parity) as usize]);
    assert(group.writes(layout) =~= set![write_slot(parity) as usize]);
}

/// Everything the application needs to record and submit one frame.
#[derive(Debug, PartialEq, Eq)]
pub struct FrameSubmission {
    /// The uniform block to upload before the pass, byte for byte.
    pub uniform_bytes: Vec<u8>,
    /// The bind group to set, and the buffer roles that come with it.
    pub binding: FrameBinding,
    /// The draw call: this many vertices, from vertex zero.
    pub vertex_count: u32,
    /// The draw call: this many instances, from instance zero.
    pub instance_count: u32,
}

/// What a [`PathTracer`] stands for.
pub ghost struct PathTracerView {
    /// The uniform block as last uploaded; before the first frame, the block
    /// of a zeroed camera.
    pub uniforms: Uniforms,
    /// The accumulation buffers and the counter.
    pub accumulation: AccumulationView,
    /// The format of the surface the display pass draws into.
    pub surface_format: TextureFormat,
}

/// The frame driver: the uniform block, the accumulation state, and the
/// description of the display pass.
pub struct PathTracer {
    uniforms: Uniforms,
    accumulation: AccumulationState,
    display_pipeline: RenderPipelineDescriptor,
    display_layout: BindGroupLayoutDescriptor,
}

impl PathTracerView {
    /// The uniform block is for the size the buffers were allocated with.
    pub open spec fn consistent(self) -> bool {
        &&& self.uniforms.width == self.accumulation.width
        &&& self.uniforms.height == self.accumulation.height
    }

    /// The driver right after its creation: the block of a zeroed camera,
    /// buffers of the given size, nothing counted.
    pub open spec fn new(surface_format: TextureFormat, width: u32, height: u32) -> PathTracerView {
        PathTracerView {
            uniforms: Uniforms { camera: CameraUniforms::zero(), width, height, frame_count: 0 },
            accumulation: AccumulationView::allocate(width as nat, height as nat),
            surface_format,
        }
    }

    /// The driver after a reset: the counter is zero, and the block still
    /// shows what was uploaded last.
    pub open spec fn reset_samples(self) -> PathTracerView {
        PathTracerView { accumulation: self.accumulation.reset(), ..self }
    }

    /// The driver after one frame seen through `camera`: the block carries
    /// `camera` and the counter as it stood before the frame, and the frame
    /// is counted.
    pub open spec fn render_frame(self, camera: CameraUniforms) -> PathTracerView {
        PathTracerView {
            uniforms: Uniforms {
                camera,
                frame_count: self.accumulation.frame_count as u32,
                ..self.uniforms
            },
            accumulation: self.accumulation.advance(),
            ..self
        }
    }

    /// The driver after one frame through each of `cameras`, in order.
    pub open spec fn render_frames(self, cameras: Seq<CameraUniforms>) -> PathTracerView
        decreases cameras.len(),
    {
        if cameras.len() == 0 {
            self
        } else {
            self.render_frames(cameras.drop_last()).render_frame(cameras.last())
        }
    }
}

impl View for PathTracer {
    type V = PathTracerView;

    closed spec fn view(&self) -> PathTracerView {
        PathTracerView {
            uniforms: self.uniforms,
            accumulation: self.accumulation@,
            surface_format: self.display_pipeline.target_format,
        }
    }
}

impl PathTracer {
    /// The block is for the size the buffers have, and the pass is the
    /// display pass.
    #[verifier::type_invariant]
    closed spec fn well_formed(self) -> bool {
        &&& self@.consistent()
        &&& self.display_pipeline == display_pipeline(self.display_pipeline.target_format)
        &&& self.display_layout.entries@ == display_layout_entries()
    }

    /// A driver for a surface of `surface_format` and an output of `width` by
    /// `height`, with no sample accumulated.
    pub fn new(surface_format: TextureFormat, width: u32, height: u32) -> (tracer: PathTracer)
        ensures
            tracer@ == PathTracerView::new(surface_format, width, height),
    {
        let (display_pipeline, display_layout) = create_display_pipeline(surface_format);
        let uniforms = Uniforms { camera: CameraUniforms::zeroed(), width, height, frame_count: 0 };
        let accumulation = AccumulationState::allocate(width, height);
        PathTracer { uniforms, accumulation, display_pipeline, display_layout }
    }

    /// Discards the samples accumulated so far: the next frame is uploaded
    /// with a count of zero. To be called whenever the camera has moved.
    pub fn reset_samples(&mut self)
        ensures
            final(self)@ == old(self)@.reset_samples(),
    {
        proof {
            use_type_invariant(&*self);
        }
        self.accumulation.reset();
    }

    /// Prepares one frame as seen through `camera`, then counts it.
    ///
    /// The uploaded block carries `camera`, the output size and the counter
    /// as it stood before this call; the bind group is the one for that
    /// counter's parity.
    pub fn render_frame(&mut self, camera: &CameraUniforms) -> (frame: FrameSubmission)
        ensures
            final(self)@ == old(self)@.render_frame(*camera),
            frame.uniform_bytes@.len() == UNIFORM_BYTES,
            native_image(final(self)@.uniforms.layout(), frame.uniform_bytes@),
            frame.binding == old(self)@.accumulation.binding(),
            frame.vertex_count == DISPLAY_VERTICES,
            frame.instance_count == DISPLAY_INSTANCES,
    {
        proof {
            use_type_invariant(&*self);
        }
        self.uniforms.camera = *camera;
        self.uniforms.frame_count = self.accumulation.frame_count();
        let uniform_bytes = self.uniforms.to_bytes();
        let binding = self.accumulation.binding_for_frame();
        self.accumulation.advance();
        FrameSubmission {
            uniform_bytes,
            binding,
            vertex_count: DISPLAY_VERTICES,
            instance_count: DISPLAY_INSTANCES,
        }
    }

    /// The uniform block as last uploaded.
    pub fn uniforms(&self) -> (uniforms: &Uniforms)
        ensures
            *uniforms == self@.uniforms,
            self@.consistent(),
    {
        proof {
            use_type_invariant(self);
        }
        &self.uniforms
    }

    /// The accumulation buffers and the counter.
    pub fn accumulation(&self) -> (accumulation: &AccumulationState)
        ensures
            accumulation@ == self@.accumulation,
            self@.consistent(),
    {
        proof {
            use_type_invariant(self);
        }
        &self.accumulation
    }

    /// The display pipeline to create.
    pub fn display_pipeline(&self) -> (pipeline: &RenderPipelineDescriptor)
        ensures
            *pipeline == display_pipeline(self@.surface_format),
    {
        proof {
            use_type_invariant(self);
        }
        &self.display_pipeline
    }

    /// The bind group layout to create.
    pub fn display_layout(&self) -> (layout: &BindGroupLayoutDescriptor)
        ensures
            layout.entries@ == display_layout_entries(),
    {
        proof {
            use_type_invariant(self);
        }
        &self.display_layout
    }
}

/// Frames and resets change neither the output size nor the surface format,
/// so a block that is for the size of the buffers stays so.
pub proof fn lemma_size_is_kept(tracer: PathTracerView, camera: CameraUniforms)
    ensures
        tracer.consistent() ==> tracer.reset_samples().consistent(),
        tracer.consistent() ==> tracer.render_frame(camera).consistent(),
        tracer.reset_samples().uniforms.width == tracer.uniforms.width,
        tracer.reset_samples().uniforms.height == tracer.uniforms.height,
        tracer.reset_samples().surface_format == tracer.surface_format,
        tracer.render_frame(camera).uniforms.width == tracer.uniforms.width,
        tracer.render_frame(camera).uniforms.height == tracer.uniforms.height,
        tracer.render_frame(camera).accumulation.width == tracer.accumulation.width,
        tracer.render_frame(camera).accumulation.height == tracer.accumulation.height,
        tracer.render_frame(camera).surface_format == tracer.surface_format,
{
}

/// The first frame after a reset is uploaded with a count of zero and reads
/// buffer 0, whatever was counted before.
pub proof fn lemma_reset_restarts_the_average(tracer: PathTracerView, camera: CameraUniforms)
    ensures
        tracer.reset_samples().render_frame(camera).uniforms.frame_count == 0,
        tracer.reset_samples().accumulation.binding() == (FrameBinding {
            bind_group: 0,
            read: 0,
            write: 1,
        }),
{
}

/// After a reset and then `cameras.len()` frames, the counter stands at that
/// number, and the block shows the last camera with the count before the
/// last frame: the number of samples that the buffer it read held.
pub proof fn lemma_frames_since_reset_uploaded(tracer: PathTracerView, cameras: Seq<CameraUniforms>)
    requires
        cameras.len() >= 1,
        cameras.len() < counter_modulus(),
    ensures
        tracer.reset_samples().render_frames(cameras).accumulation.frame_count == cameras.len(),
        tracer.reset_samples().render_frames(cameras).uniforms.frame_count == cameras.len() - 1,
        tracer.reset_samples().render_frames(cameras).uniforms.camera == cameras.last(),
{
    lemma_render_frames_counts(tracer.reset_samples(), cameras.drop_last());
    lemma_render_frames_counts(tracer.reset_samples(), cameras);
    lemma_frames_since_reset(tracer.accumulation, (cameras.len() - 1) as nat);
    lemma_frames_since_reset(tracer.accumulation, cameras.len());
}

/// Rendering frames counts them, one by one.
pub proof fn lemma_render_frames_counts(tracer: PathTracerView, cameras: Seq<CameraUniforms>)
    ensures
        tracer.render_frames(cameras).accumulation == tracer.accumulation.advance_by(cameras.len()),
    decreases cameras.len(),
{
    if cameras.len() > 0 {
        lemma_render_frames_counts(tracer, cameras.drop_last());
    }
}

} // verus!
