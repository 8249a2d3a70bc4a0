use path_tracer::uniforms::{CameraUniforms, Uniforms, UNIFORM_BYTES, UNIFORM_WORDS};

fn bits(v: [f32; 3]) -> [u32; 3] {
    [v[0].to_bits(), v[1].to_bits(), v[2].to_bits()]
}

fn sample_camera() -> CameraUniforms {
    CameraUniforms::new(
        bits([0.0, 0.75, 1.0]),
        bits([1.0, 0.0, 0.0]),
        bits([0.0, 0.8, -0.6]),
        bits([0.0, -0.6, -0.8]),
    )
}

#[test]
fn block_size() {
    assert_eq!(UNIFORM_WORDS, 20);
    assert_eq!(UNIFORM_BYTES, 80);
    assert_eq!(UNIFORM_BYTES, 4 * UNIFORM_WORDS);
    assert_eq!(UNIFORM_BYTES % 16, 0);
}

#[test]
fn new_keeps_the_vectors() {
    let camera = CameraUniforms::new([1, 2, 3], [4, 5, 6], [7, 8, 9], [10, 11, 12]);
    assert_eq!(camera.origin, [1, 2, 3]);
    assert_eq!(camera.u, [4, 5, 6]);
    assert_eq!(camera.v, [7, 8, 9]);
    assert_eq!(camera.w, [10, 11, 12]);
}

#[test]
fn zeroed_is_all_zero() {
    let camera = CameraUniforms::zeroed();
    assert_eq!(camera, CameraUniforms::new([0; 3], [0; 3], [0; 3], [0; 3]));
    let block = Uniforms { camera, width: 0, height: 0, frame_count: 0 };
    assert_eq!(block.words(), [0u32; 20]);
    assert_eq!(block.to_bytes(), vec![0u8; 80]);
}

#[test]
fn words_follow_the_layout() {
    let block = Uniforms {
        camera: CameraUniforms::new([1, 2, 3], [4, 5, 6], [7, 8, 9], [10, 11, 12]),
        width: 800,
        height: 600,
        frame_count: 7,
    };
    assert_eq!(
        block.words(),
        [1, 2, 3, 0, 4, 5, 6, 0, 7, 8, 9, 0, 10, 11, 12, 0, 800, 600, 7, 0]
    );
}

#[test]
fn every_vector_starts_on_sixteen_bytes() {
    let camera = sample_camera();
    let block = Uniforms { camera, width: 800, height: 600, frame_count: 3 };
    let bytes = block.to_bytes();
    assert_eq!(bytes.len(), 80);
    for (offset, vector) in [(0, camera.origin), (16, camera.u), (32, camera.v), (48, camera.w)] {
        for k in 0..3 {
            let at = offset + 4 * k;
            assert_eq!(bytes[at..at + 4], f32::from_bits(vector[k]).to_ne_bytes());
        }
        assert_eq!(bytes[offset + 12..offset + 16], [0u8; 4]);
    }
    assert_eq!(bytes[64..68], 800u32.to_ne_bytes());
    assert_eq!(bytes[68..72], 600u32.to_ne_bytes());
    assert_eq!(bytes[72..76], 3u32.to_ne_bytes());
    assert_eq!(bytes[76..80], [0u8; 4]);
}

#[test]
fn bytes_are_the_words_in_native_order() {
    let block = Uniforms {
        camera: CameraUniforms::new(
            [0x0102_0304, 0x1112_1314, 0x2122_2324],
            [0x3132_3334, 0x4142_4344, 0x5152_5354],
            [0x6162_6364, 0x7172_7374, 0x8182_8384],
            [0x9192_9394, 0xa1a2_a3a4, 0xb1b2_b3b4],
        ),
        width: 0xc1c2_c3c4,
        height: 0xd1d2_d3d4,
        frame_count: 0xe1e2_e3e4,
    };
    let mut expected = Vec::new();
    for word in block.words() {
        expected.extend_from_slice(&word.to_ne_bytes());
    }
    assert_eq!(block.to_bytes(), expected);
}

#[test]
fn bytes_are_little_or_big_endian_throughout() {
    let block = Uniforms {
        camera: sample_camera(),
        width: 0x0102_0304,
        height: 0x0506_0708,
        frame_count: 0x090a_0b0c,
    };
    let bytes = block.to_bytes();
    let mut little = Vec::new();
    let mut big = Vec::new();
    for word in block.words() {
        little.extend_from_slice(&word.to_le_bytes());
        big.extend_from_slice(&word.to_be_bytes());
    }
    assert!(bytes == little || bytes == big);
}

#[test]
fn one_in_single_precision() {
    let block = Uniforms {
        camera: CameraUniforms::new(bits([1.0, 0.0, 0.0]), [0; 3], [0; 3], [0; 3]),
        width: 1,
        height: 2,
        frame_count: 3,
    };
    assert_eq!(block.words()[0], 0x3f80_0000);
    assert_eq!(block.to_bytes()[0..4], 0x3f80_0000u32.to_ne_bytes());
}
