use path_tracer::accumulation::{
    create_display_bind_groups, create_sample_texture, AccumulationState, FrameBinding,
    READ_BINDING, UNIFORM_BINDING, WRITE_BINDING,
};
use path_tracer::gpu::{BindGroupEntry, BindingResource, TextureFormat, TextureUsages};

#[test]
fn allocate_starts_at_zero() {
    let state = AccumulationState::allocate(800, 600);
    assert_eq!(state.frame_count(), 0);
    assert_eq!(state.width(), 800);
    assert_eq!(state.height(), 600);
}

#[test]
fn three_frames_then_reset() {
    let mut state = AccumulationState::allocate(800, 600);
    state.advance();
    state.advance();
    state.advance();
    assert_eq!(state.frame_count(), 3);
    // The camera moves here; the application answers with a reset.
    state.reset();
    assert_eq!(state.frame_count(), 0);
}

#[test]
fn advance_counts_every_frame() {
    let mut state = AccumulationState::allocate(64, 64);
    for n in 0..1000u32 {
        assert_eq!(state.frame_count(), n);
        state.advance();
    }
    assert_eq!(state.frame_count(), 1000);
}

#[test]
fn reset_of_a_fresh_state_changes_nothing() {
    let mut state = AccumulationState::allocate(16, 9);
    state.reset();
    assert_eq!(state.frame_count(), 0);
    assert_eq!(state.width(), 16);
    assert_eq!(state.height(), 9);
    assert_eq!(state.binding_for_frame(), FrameBinding { bind_group: 0, read: 0, write: 1 });
}

#[test]
fn reset_keeps_the_buffers() {
    let mut state = AccumulationState::allocate(320, 200);
    state.advance();
    let before = *state.buffers();
    state.reset();
    assert_eq!(*state.buffers(), before);
    assert_eq!(state.width(), 320);
    assert_eq!(state.height(), 200);
}

#[test]
fn binding_follows_parity() {
    let mut state = AccumulationState::allocate(800, 600);
    assert_eq!(state.binding_for_frame(), FrameBinding { bind_group: 0, read: 0, write: 1 });
    state.advance();
    assert_eq!(state.binding_for_frame(), FrameBinding { bind_group: 1, read: 1, write: 0 });
    state.advance();
    assert_eq!(state.binding_for_frame(), FrameBinding { bind_group: 0, read: 0, write: 1 });
}

#[test]
fn write_target_becomes_read_source() {
    let mut state = AccumulationState::allocate(800, 600);
    for _ in 0..64 {
        let now = state.binding_for_frame();
        assert_ne!(now.read, now.write);
        assert!(now.read < 2 && now.write < 2);
        state.advance();
        let next = state.binding_for_frame();
        assert_eq!(next.read, now.write);
        assert_eq!(next.write, now.read);
    }
}

#[test]
fn binding_after_reset_is_that_of_frame_zero() {
    let mut state = AccumulationState::allocate(800, 600);
    state.advance();
    assert_eq!(state.binding_for_frame().read, 1);
    state.reset();
    assert_eq!(state.binding_for_frame(), FrameBinding { bind_group: 0, read: 0, write: 1 });
}

#[test]
fn sample_textures_are_equal_float_storage() {
    let textures = create_sample_texture(800, 600);
    assert_eq!(textures[0], textures[1]);
    let t = textures[0];
    assert_eq!(t.width, 800);
    assert_eq!(t.height, 600);
    assert_eq!(t.depth_or_array_layers, 1);
    assert_eq!(t.mip_level_count, 1);
    assert_eq!(t.sample_count, 1);
    assert_eq!(t.format, TextureFormat::Rgba32Float);
    assert_eq!(
        t.usage,
        TextureUsages {
            copy_src: false,
            copy_dst: false,
            texture_binding: true,
            storage_binding: true,
            render_attachment: false,
        }
    );
}

#[test]
fn sample_textures_of_an_empty_output() {
    let textures = create_sample_texture(0, 0);
    assert_eq!(textures[0].width, 0);
    assert_eq!(textures[1].height, 0);
    assert_eq!(textures[0], textures[1]);
}

#[test]
fn state_holds_the_textures_it_was_allocated_with() {
    let state = AccumulationState::allocate(1024, 768);
    assert_eq!(*state.buffers(), create_sample_texture(1024, 768));
    assert_eq!(*state.bind_groups(), create_display_bind_groups());
}

#[test]
fn bind_groups_swap_the_views() {
    let groups = create_display_bind_groups();
    let uniforms = BindGroupEntry { binding: 0, resource: BindingResource::UniformBuffer };
    assert_eq!(
        groups[0].entries,
        [
            uniforms,
            BindGroupEntry { binding: 1, resource: BindingResource::SampleView(0) },
            BindGroupEntry { binding: 2, resource: BindingResource::SampleView(1) },
        ]
    );
    assert_eq!(
        groups[1].entries,
        [
            uniforms,
            BindGroupEntry { binding: 1, resource: BindingResource::SampleView(1) },
            BindGroupEntry { binding: 2, resource: BindingResource::SampleView(0) },
        ]
    );
}

#[test]
fn binding_numbers() {
    assert_eq!(UNIFORM_BINDING, 0);
    assert_eq!(READ_BINDING, 1);
    assert_eq!(WRITE_BINDING, 2);
}

#[test]
fn bind_group_of_a_frame_binds_its_roles() {
    let mut state = AccumulationState::allocate(800, 600);
    for _ in 0..4 {
        let binding = state.binding_for_frame();
        let group = state.bind_groups()[binding.bind_group];
        assert_eq!(group.entries[1].binding, READ_BINDING);
        assert_eq!(group.entries[1].resource, BindingResource::SampleView(binding.read));
        assert_eq!(group.entries[2].binding, WRITE_BINDING);
        assert_eq!(group.entries[2].resource, BindingResource::SampleView(binding.write));
        state.advance();
    }
}
