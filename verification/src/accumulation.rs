//! The accumulation buffers and the ping-pong protocol over them.
//!
//! Two equally sized textures hold the running average. In every frame the
//! GPU program reads one of them and writes the other, and the roles swap
//! with the parity of the frame counter. Nothing is copied or rebound
//! between frames: one bind group is built for each parity, and a single
//! modulo picks the one to use.
//!
//! The counter does double duty. Its parity assigns the roles, and its value
//! tells the GPU program how many samples the buffer it reads already holds.
//! A reset only zeroes the counter: the buffers keep their contents, and the
//! GPU program overwrites instead of blending when it sees a count of zero.

use vstd::prelude::*;
use crate::gpu::{
    BindGroupDescriptor, BindGroupEntry, BindingResource, TextureDescriptor, TextureFormat,
    TextureUsages,
};

verus! {

/// Binding number of the uniform buffer.
pub const UNIFORM_BINDING: u32 = 0;

/// Binding number of the buffer that is read.
pub const READ_BINDING: u32 = 1;

/// Binding number of the buffer that is written.
pub const WRITE_BINDING: u32 = 2;

/// The frame counter wraps at this value. It is even, so parity survives the wrap.
pub open spec fn counter_modulus() -> nat {
    0x1_0000_0000
}

/// Index of the buffer that a frame reads when the counter stands at `frame_count`.
pub open spec fn read_slot(frame_count: nat) -> nat {
    frame_count % 2
}

/// Index of the buffer that a frame writes when the counter stands at `frame_count`.
pub open spec fn write_slot(frame_count: nat) -> nat {
    (frame_count + 1) % 2
}

/// One accumulation buffer: a single-sampled 32-bit float texture that can be
/// both sampled and written as storage.
pub open spec fn sample_texture(width: nat, height: nat) -> TextureDescriptor {
    TextureDescriptor {
        width: width as u32,
        height: height as u32,
        depth_or_array_layers: 1,
        mip_level_count: 1,
        sample_count: 1,
        format: TextureFormat::Rgba32Float,
        usage: TextureUsages {
            copy_src: false,
            copy_dst: false,
            texture_binding: true,
            storage_binding: true,
            render_attachment: false,
        },
    }
}

/// The two accumulation buffers for an output of `width` by `height`.
pub open spec fn sample_textures(width: nat, height: nat) -> Seq<TextureDescriptor> {
    seq![sample_texture(width, height), sample_texture(width, height)]
}

/// The entries of the bind group for frames of the given parity: the uniform
/// buffer, then the buffer with the parity's index to read, then the other
/// buffer to write.
pub open spec fn bind_group_entries(parity: nat) -> Seq<BindGroupEntry> {
    seq![
        BindGroupEntry { binding: UNIFORM_BINDING, resource: BindingResource::UniformBuffer },
        BindGroupEntry {
            binding: READ_BINDING,
            resource: BindingResource::SampleView(read_slot(parity) as usize),
        },
        BindGroupEntry {
            binding: WRITE_BINDING,
            resource: BindingResource::SampleView(write_slot(parity) as usize),
        },
    ]
}

/// Describes the two accumulation buffers for an output of `width` by `height`.
pub fn create_sample_texture(width: u32, height: u32) -> (textures: [TextureDescriptor; 2])
    ensures
        textures@ == sample_textures(width as nat, height as nat),
{
    let texture = TextureDescriptor {
        width,
        height,
        depth_or_array_layers: 1,
        mip_level_count: 1,
        sample_count: 1,
        format: TextureFormat::Rgba32Float,
        usage: TextureUsages {
            copy_src: false,
            copy_dst: false,
            texture_binding: true,
            storage_binding: true,
            render_attachment: false,
        },
    };
    let textures: [TextureDescriptor; 2] = [texture, texture];
    assert(textures@ =~= sample_textures(width as nat, height as nat));
    textures
}

/// Describes the two bind groups, one per parity of the frame counter.
pub fn create_display_bind_groups() -> (groups: [BindGroupDescriptor; 2])
    ensures
        groups[0].entries@ == bind_group_entries(0),
        groups[1].entries@ == bind_group_entries(1),
{
    let uniforms = BindGroupEntry {
        binding: UNIFORM_BINDING,
        resource: BindingResource::UniformBuffer,
    };
    let even = BindGroupDescriptor {
        entries: [
            uniforms,
            BindGroupEntry { binding: READ_BINDING, resource: BindingResource::SampleView(0) },
            BindGroupEntry { binding: WRITE_BINDING, resource: BindingResource::SampleView(1) },
        ],
    };
    let odd = BindGroupDescriptor {
        entries: [
            uniforms,
            BindGroupEntry { binding: READ_BINDING, resource: BindingResource::SampleView(1) },
            BindGroupEntry { binding: WRITE_BINDING, resource: BindingResource::SampleView(0) },
        ],
    };
    assert(even.entries@ =~= bind_group_entries(0));
    assert(odd.entries@ =~= bind_group_entries(1));
    [even, odd]
}

/// The roles of the two buffers in one frame.
#[derive(Clone, Copy, Debug, PartialEq, Eq)]
pub struct FrameBinding {
    /// Index of the bind group to set.
    pub bind_group: usize,
    /// Index of the buffer that holds the previous frame's average.
    pub read: usize,
    /// Index of the buffer that receives this frame's average.
    pub write: usize,
}

/// What an [`AccumulationState`] stands for: the size its buffers were
/// allocated with, and the frame counter.
pub ghost struct AccumulationView {
    pub width: nat,
    pub height: nat,
    pub frame_count: nat,
}

impl AccumulationView {
    /// The state right after allocation.
    pub open spec fn allocate(width: nat, height: nat) -> AccumulationView {
        AccumulationView { width, height, frame_count: 0 }
    }

    /// The state after a reset: the same buffers, no sample counted.
    pub open spec fn reset(self) -> AccumulationView {
        AccumulationView { frame_count: 0, ..self }
    }

    /// The state after one more frame: the same buffers, the counter one
    /// further, wrapped at 2^32.
    pub open spec fn advance(self) -> AccumulationView {
        AccumulationView { frame_count: (self.frame_count + 1) % counter_modulus(), ..self }
    }

    /// The state after `n` more frames.
    pub open spec fn advance_by(self, n: nat) -> AccumulationView
        decreases n,
    {
        if n == 0 {
            self
        } else {
            self.advance_by((n - 1) as nat).advance()
        }
    }

    /// The roles of the buffers in the frame about to be recorded: the bind
    /// group of the counter's parity, which reads the buffer of that index
    /// and writes the other.
    pub open spec fn binding(self) -> FrameBinding {
        FrameBinding {
            bind_group: read_slot(self.frame_count) as usize,
            read: read_slot(self.frame_count) as usize,
            write: write_slot(self.frame_count) as usize,
        }
    }
}

/// The two accumulation buffers, their bind groups, and the frame counter
/// that assigns the roles.
pub struct AccumulationState {
    buffers: [TextureDescriptor; 2],
    bind_groups: [BindGroupDescriptor; 2],
    frame_count: u32,
}

impl View for AccumulationState {
    type V = AccumulationView;

    closed spec fn view(&self) -> AccumulationView {
        AccumulationView {
            width: self.buffers[0].width as nat,
            height: self.buffers[0].height as nat,
            frame_count: self.frame_count as nat,
        }
    }
}

impl AccumulationState {
    /// Both buffers are sample textures of one size, and the bind groups are
    /// those of the two parities.
    #[verifier::type_invariant]
    closed spec fn well_formed(self) -> bool {
        &&& self.buffers@ == sample_textures(
            self.buffers[0].width as nat,
            self.buffers[0].height as nat,
        )
        &&& self.bind_groups[0].entries@ == bind_group_entries(0)
        &&& self.bind_groups[1].entries@ == bind_group_entries(1)
    }

    /// Allocates the buffers for an output of `width` by `height` and starts
    /// the count at zero.
    pub fn allocate(width: u32, height: u32) -> (state: AccumulationState)
        ensures
            state@ == AccumulationView::allocate(width as nat, height as nat),
    {
        AccumulationState {
            buffers: create_sample_texture(width, height),
            bind_groups: create_display_bind_groups(),
            frame_count: 0,
        }
    }

    /// Restarts the average: the next frame counts as the first sample.
    /// The buffers keep their contents and their size.
    pub fn reset(&mut self)
        ensures
            final(self)@ == old(self)@.reset(),
        no_unwind
    {
        proof {
            use_type_invariant(&*self);
        }
        self.frame_count = 0;
    }

    /// Counts one submitted frame. To be called once per frame, after the
    /// frame's work has been recorded. The counter wraps at 2^32.
    pub fn advance(&mut self)
        ensures
            final(self)@ == old(self)@.advance(),
        no_unwind
    {
        proof {
            use_type_invariant(&*self);
        }
        self.frame_count = if self.frame_count == u32::MAX {
            0
        } else {
            self.frame_count + 1
        };
    }

    /// The frame counter: the number of frames submitted since the last
    /// reset, modulo 2^32.
    pub fn frame_count(&self) -> (count: u32)
        ensures
            count == self@.frame_count,
    {
        self.frame_count
    }

    /// The width the buffers were allocated with.
    pub fn width(&self) -> (width: u32)
        ensures
            width == self@.width,
    {
        self.buffers[0].width
    }

    /// The height the buffers were allocated with.
    pub fn height(&self) -> (height: u32)
        ensures
            height == self@.height,
    {
        self.buffers[0].height
    }

    /// The two buffers, by index.
    pub fn buffers(&self) -> (buffers: &[TextureDescriptor; 2])
        ensures
            buffers@ == sample_textures(self@.width, self@.height),
    {
        proof {
            use_type_invariant(self);
        }
        &self.buffers
    }

    /// The two bind groups, by parity.
    pub fn bind_groups(&self) -> (groups: &[BindGroupDescriptor; 2])
        ensures
            groups[0].entries@ == bind_group_entries(0),
            groups[1].entries@ == bind_group_entries(1),
    {
        proof {
            use_type_invariant(self);
        }
        &self.bind_groups
    }

    /// Which bind group to set for the frame about to be recorded, and which
    /// buffer it reads and which it writes.
    pub fn binding_for_frame(&self) -> (binding: FrameBinding)
        ensures
            binding == self@.binding(),
    {
        let parity: usize = (self.frame_count % 2) as usize;
        FrameBinding { bind_group: parity, read: parity, write: 1 - parity }
    }
}

/// Which frame's result each buffer holds once `n` frames have been
/// submitted in order, starting from `state`. The frames are numbered from
/// zero; `None` stands for contents that none of them has written.
pub open spec fn contents_after(state: AccumulationView, n: nat) -> Seq<Option<nat>>
    decreases n,
{
    if n == 0 {
        seq![None, None]
    } else {
        let frame = (n - 1) as nat;
        contents_after(state, frame).update(
            state.advance_by(frame).binding().write as int,
            Some(frame),
        )
    }
}

/// Counting frames changes nothing but the counter.
pub proof fn lemma_advance_keeps_buffers(state: AccumulationView, n: nat)
    ensures
        state.advance_by(n).width == state.width,
        state.advance_by(n).height == state.height,
    decreases n,
{
    if n > 0 {
        lemma_advance_keeps_buffers(state, (n - 1) as nat);
    }
}

/// After a reset, `n` frames bring the counter to `n` modulo 2^32, and so to
/// `n` itself as long as `n` fits the counter.
pub proof fn lemma_frames_since_reset(state: AccumulationView, n: nat)
    ensures
        state.reset().frame_count == 0,
        state.reset().advance_by(n).frame_count == n % counter_modulus(),
        n < counter_modulus() ==> state.reset().advance_by(n).frame_count == n,
    decreases n,
{
    if n > 0 {
        lemma_frames_since_reset(state, (n - 1) as nat);
    }
}

/// Counting `m` frames and then `n` more is counting `m + n` frames.
pub proof fn lemma_advance_by_sum(state: AccumulationView, m: nat, n: nat)
    ensures
        state.advance_by(m).advance_by(n) == state.advance_by(m + n),
    decreases n,
{
    if n > 0 {
        lemma_advance_by_sum(state, m, (n - 1) as nat);
        assert((m + n - 1) as nat == m + (n - 1) as nat);
    }
}

/// In every frame the two roles fall on different buffers, and both are
/// buffers that exist.
pub proof fn lemma_roles_differ(state: AccumulationView)
    ensures
        state.binding().read < 2,
        state.binding().write < 2,
        state.binding().read != state.binding().write,
        state.binding().bind_group == state.binding().read,
{
}

/// The buffer a frame writes is the buffer the next frame reads, and the
/// other way round; this holds also where the counter wraps.
pub proof fn lemma_write_target_is_next_read_source(state: AccumulationView)
    ensures
        state.advance().binding().read == state.binding().write,
        state.advance().binding().write == state.binding().read,
{
}

/// The bind group picked for a frame binds the frame's read buffer to the
/// read slot and its write buffer to the write slot. So what the group of
/// one frame binds for writing, the group of the next binds for reading.
pub proof fn lemma_bind_group_matches_roles(state: AccumulationView)
    ensures
        bind_group_entries(state.binding().bind_group as nat)[1] == (BindGroupEntry {
            binding: READ_BINDING,
            resource: BindingResource::SampleView(state.binding().read),
        }),
        bind_group_entries(state.binding().bind_group as nat)[2] == (BindGroupEntry {
            binding: WRITE_BINDING,
            resource: BindingResource::SampleView(state.binding().write),
        }),
        bind_group_entries(state.advance().binding().bind_group as nat)[1].resource
            == bind_group_entries(state.binding().bind_group as nat)[2].resource,
{
}

/// Every frame but the first reads the result of the frame just before it,
/// and overwrites an older one. This holds from any state, so also across a
/// wrap of the counter.
pub proof fn lemma_frame_reads_previous_result(state: AccumulationView, n: nat)
    requires
        n >= 1,
    ensures
        ({
            let binding = state.advance_by(n).binding();
            &&& contents_after(state, n)[binding.read as int] == Some((n - 1) as nat)
            &&& contents_after(state, n)[binding.write as int] != Some((n - 1) as nat)
        }),
{
    let frame = (n - 1) as nat;
    lemma_write_target_is_next_read_source(state.advance_by(frame));
    lemma_contents_len(state, frame);
    lemma_contents_bounded(state, frame);
}

proof fn lemma_contents_len(state: AccumulationView, n: nat)
    ensures
        contents_after(state, n).len() == 2,
    decreases n,
{
    if n > 0 {
        lemma_contents_len(state, (n - 1) as nat);
    }
}

/// No buffer holds the result of a frame that has not been submitted yet.
pub proof fn lemma_contents_bounded(state: AccumulationView, n: nat)
    ensures
        forall|slot: int, frame: nat|
            0 <= slot < 2 && contents_after(state, n)[slot] == Some(frame) ==> frame < n,
    decreases n,
{
    if n > 0 {
        lemma_contents_bounded(state, (n - 1) as nat);
        lemma_contents_len(state, (n - 1) as nat);
    }
}

} // verus!
