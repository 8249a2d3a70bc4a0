//! The uniform block: the record uploaded to the GPU program once per frame.
//!
//! Every float of the block is carried as the 32-bit pattern of its IEEE-754
//! single-precision encoding. The block never computes with these values; it
//! only lays them out, so the bit pattern is all it needs.

use vstd::prelude::*;

verus! {

/// Number of 32-bit words in the uniform block.
pub const UNIFORM_WORDS: usize = 20;

/// Number of bytes in the uniform block.
pub const UNIFORM_BYTES: usize = 80;

/// The camera's part of the uniform block: eye position and view basis.
///
/// Each array holds the x, y and z components of one vector, as bit patterns.
#[derive(Clone, Copy, Debug, PartialEq, Eq)]
pub struct CameraUniforms {
    pub origin: [u32; 3],
    pub u: [u32; 3],
    pub v: [u32; 3],
    pub w: [u32; 3],
}

impl CameraUniforms {
    /// The block's words for the camera: each vector followed by one word of
    /// padding, so that every vector starts on a 16-byte boundary.
    pub open spec fn layout(self) -> Seq<u32> {
        seq![
            self.origin[0], self.origin[1], self.origin[2], 0u32,
            self.u[0], self.u[1], self.u[2], 0u32,
            self.v[0], self.v[1], self.v[2], 0u32,
            self.w[0], self.w[1], self.w[2], 0u32,
        ]
    }

    pub fn new(origin: [u32; 3], u: [u32; 3], v: [u32; 3], w: [u32; 3]) -> (camera: CameraUniforms)
        ensures
            camera == (CameraUniforms { origin, u, v, w }),
    {
        CameraUniforms { origin, u, v, w }
    }

    /// The camera with every component zero.
    pub open spec fn zero() -> CameraUniforms {
        CameraUniforms {
            origin: [0u32, 0u32, 0u32],
            u: [0u32, 0u32, 0u32],
            v: [0u32, 0u32, 0u32],
            w: [0u32, 0u32, 0u32],
        }
    }

    /// The camera with every component zero, as the block holds it before the
    /// first frame.
    pub fn zeroed() -> (camera: CameraUniforms)
        ensures
            camera == CameraUniforms::zero(),
    {
        CameraUniforms { origin: [0, 0, 0], u: [0, 0, 0], v: [0, 0, 0], w: [0, 0, 0] }
    }
}

/// Byte `k` of `word`, counted from the least significant byte.
pub open spec fn byte_of(word: u32, k: int) -> u8 {
    if k == 0 {
        (word % 0x100) as u8
    } else if k == 1 {
        (word / 0x100 % 0x100) as u8
    } else if k == 2 {
        (word / 0x1_0000 % 0x100) as u8
    } else {
        (word / 0x100_0000) as u8
    }
}

/// The bytes of `words` in order, each word's least significant byte first.
pub open spec fn little_endian(words: Seq<u32>) -> Seq<u8> {
    Seq::new(4 * words.len(), |i: int| byte_of(words[i / 4], i % 4))
}

/// The bytes of `words` in order, each word's most significant byte first.
pub open spec fn big_endian(words: Seq<u32>) -> Seq<u8> {
    Seq::new(4 * words.len(), |i: int| byte_of(words[i / 4], 3 - i % 4))
}

/// Whether `bytes` is how some machine holds `words` in memory: the words in
/// order and without gaps, all in one byte order.
pub open spec fn native_image(words: Seq<u32>, bytes: Seq<u8>) -> bool {
    bytes == little_endian(words) || bytes == big_endian(words)
}

/// The whole uniform block: camera, output resolution and sample count.
#[derive(Clone, Copy, Debug, PartialEq, Eq)]
pub struct Uniforms {
    pub camera: CameraUniforms,
    pub width: u32,
    pub height: u32,
    pub frame_count: u32,
}

impl Uniforms {
    /// The block as the GPU program declares it, word by word: the camera,
    /// then width, height and frame count, then one word of padding that
    /// brings the size to a multiple of 16 bytes.
    pub open spec fn layout(self) -> Seq<u32> {
        self.camera.layout() + seq![self.width, self.height, self.frame_count, 0u32]
    }

    /// The block's words in upload order.
    pub fn words(&self) -> (words: [u32; 20])
        ensures
            words@ == self.layout(),
    {
        let c = &self.camera;
        let words: [u32; 20] = [
            c.origin[0], c.origin[1], c.origin[2], 0,
            c.u[0], c.u[1], c.u[2], 0,
            c.v[0], c.v[1], c.v[2], 0,
            c.w[0], c.w[1], c.w[2], 0,
            self.width, self.height, self.frame_count, 0,
        ];
        assert(words@ =~= self.layout());
        words
    }

    /// The block's bytes as they are uploaded.
    ///
    /// Host and GPU share one memory image, so the bytes are in the host's own
    /// byte order; the layout in words is the same on every machine.
    pub fn to_bytes(&self) -> (bytes: Vec<u8>)
        ensures
            bytes@.len() == UNIFORM_BYTES,
            native_image(self.layout(), bytes@),
    {
        let words = self.words();
        words_as_bytes(&words)
    }
}

/// The block is twenty words, which makes eighty bytes in either byte order:
/// a multiple of sixteen, as the GPU asks of a uniform block.
pub proof fn lemma_block_size(block: Uniforms)
    ensures
        block.layout().len() == UNIFORM_WORDS,
        little_endian(block.layout()).len() == UNIFORM_BYTES,
        big_endian(block.layout()).len() == UNIFORM_BYTES,
        UNIFORM_BYTES % 16 == 0,
{
}

/// Each vector of the camera starts on a multiple of four words, that is of
/// sixteen bytes, and the word after it is zero; the three scalars follow the
/// last vector, and the last word is zero.
pub proof fn lemma_block_fields(block: Uniforms)
    ensures
        block.layout().subrange(0, 3) == block.camera.origin@,
        block.layout().subrange(4, 7) == block.camera.u@,
        block.layout().subrange(8, 11) == block.camera.v@,
        block.layout().subrange(12, 15) == block.camera.w@,
        block.layout()[16] == block.width,
        block.layout()[17] == block.height,
        block.layout()[18] == block.frame_count,
        block.layout()[3] == 0,
        block.layout()[7] == 0,
        block.layout()[11] == 0,
        block.layout()[15] == 0,
        block.layout()[19] == 0,
{
    let words = block.layout();
    assert(words.subrange(0, 3) =~= block.camera.origin@);
    assert(words.subrange(4, 7) =~= block.camera.u@);
    assert(words.subrange(8, 11) =~= block.camera.v@);
    assert(words.subrange(12, 15) =~= block.camera.w@);
}

/// The layout loses nothing: blocks with the same words are the same block.
pub proof fn lemma_layout_determines_block(a: Uniforms, b: Uniforms)
    requires
        a.layout() == b.layout(),
    ensures
        a == b,
{
    lemma_block_fields(a);
    lemma_block_fields(b);
    assert(a.camera.origin =~= b.camera.origin);
    assert(a.camera.u =~= b.camera.u);
    assert(a.camera.v =~= b.camera.v);
    assert(a.camera.w =~= b.camera.w);
    assert(a.layout()[16] == b.layout()[16]);
    assert(a.layout()[17] == b.layout()[17]);
    assert(a.layout()[18] == b.layout()[18]);
}

/// A word is its four bytes: the least significant first, each weighing 256
/// times the one before.
pub proof fn lemma_word_from_bytes(word: u32)
    ensures
        word == byte_of(word, 0) + 0x100 * byte_of(word, 1) + 0x1_0000 * byte_of(word, 2)
            + 0x100_0000 * byte_of(word, 3),
{
}

/// In one byte order, the bytes determine the words: the GPU program sees
/// the block that was laid out and no other.
pub proof fn lemma_image_determines_words(a: Seq<u32>, b: Seq<u32>)
    requires
        little_endian(a) == little_endian(b) || big_endian(a) == big_endian(b),
    ensures
        a == b,
{
    assert(4 * a.len() == 4 * b.len()) by {
        assert(little_endian(a).len() == 4 * a.len());
        assert(big_endian(a).len() == 4 * a.len());
        assert(little_endian(b).len() == 4 * b.len());
        assert(big_endian(b).len() == 4 * b.len());
    }
    assert forall|i: int| 0 <= i < a.len() implies a[i] == b[i] by {
        lemma_word_from_bytes(a[i]);
        lemma_word_from_bytes(b[i]);
        if little_endian(a) == little_endian(b) {
            assert forall|k: int| 0 <= k < 4 implies byte_of(a[i], k) == byte_of(b[i], k) by {
                assert((4 * i + k) / 4 == i && (4 * i + k) % 4 == k);
                assert(little_endian(a)[4 * i + k] == byte_of(a[i], k));
                assert(little_endian(b)[4 * i + k] == byte_of(b[i], k));
            }
        } else {
            assert forall|k: int| 0 <= k < 4 implies byte_of(a[i], k) == byte_of(b[i], k) by {
                assert((4 * i + 3 - k) / 4 == i && (4 * i + 3 - k) % 4 == 3 - k);
                assert(big_endian(a)[4 * i + 3 - k] == byte_of(a[i], k));
                assert(big_endian(b)[4 * i + 3 - k] == byte_of(b[i], k));
            }
        }
        assert(byte_of(a[i], 0) == byte_of(b[i], 0));
        assert(byte_of(a[i], 1) == byte_of(b[i], 1));
        assert(byte_of(a[i], 2) == byte_of(b[i], 2));
        assert(byte_of(a[i], 3) == byte_of(b[i], 3));
    }
    assert(a =~= b);
}

/// Trusted: `bytemuck::bytes_of` on an array of twenty `u32`.
///
/// `bytes_of` reinterprets the array's memory as a byte slice of the same
/// size. The claim is that this memory is the twenty words in order with no
/// gaps, each in the machine's byte order, which is either little or big
/// endian for the whole array.
#[verifier::external_body]
fn words_as_bytes(words: &[u32; 20]) -> (bytes: Vec<u8>)
    ensures
        native_image(words@, bytes@),
{
    bytemuck::bytes_of(words).to_vec()
}

} // verus!
