//! Fixed geometry of the ring and the layout of the combined uniform + vertex buffer.
use vstd::bits::lemma_usize_low_bits_mask_is_mod;
use vstd::arithmetic::power2::{pow2, lemma2_to64, lemma_pow2_pos};
use vstd::prelude::*;

verus! {

/// Number of swap-chain back-buffers, and so of shared slots and frame command buffers.
pub const BACK_BUFFER_COUNT: usize = 2;

/// Width of the swap-chain, the images, the framebuffers and the render area.
pub const EXTENT_WIDTH: u32 = 640;

/// Height of the swap-chain, the images, the framebuffers and the render area.
pub const EXTENT_HEIGHT: u32 = 480;

/// Size in bytes of the timer uniform: one 32-bit float.
pub const TIMER_SIZE: usize = 4;

/// Size in bytes of one vertex: a position and a color of four 32-bit floats each.
pub const VERTEX_SIZE: usize = 32;

/// Offset of the color attribute within a vertex.
pub const VERTEX_COLOR_OFFSET: usize = 16;

/// Number of vertices of the triangle.
pub const TRIANGLE_VERTEX_COUNT: usize = 3;

/// Alignment of the vertex region within the combined buffer.
pub const VERTEX_ALIGN: usize = 16;

/// `x` rounded up to the next multiple of `a`.
pub open spec fn align_up(x: int, a: int) -> int {
    ((x + a - 1) / a) * a
}

/// Whether `a` is a power of two.
pub open spec fn is_pow2(a: usize) -> bool {
    exists|n: nat| n < usize::BITS && a == pow2(n)
}

/// Rounds `x` up to a multiple of the power of two `a`.
pub fn align2(x: usize, a: usize) -> (r: usize)
    requires
        is_pow2(a),
        x + a - 1 <= usize::MAX,
    ensures
        r == align_up(x as int, a as int),
{
    proof {
        let n = choose|n: nat| n < usize::BITS && a == pow2(n);
        lemma_pow2_pos(n);
    }
    let y: usize = x + (a - 1);
    let m: usize = a - 1;
    proof {
        let n = choose|n: nat| n < usize::BITS && a == pow2(n);
        lemma_usize_low_bits_mask_is_mod(y, n);
        assert(y & !m == y - (y & m)) by (bit_vector);
        assert(y - y % a == (y / a) * a) by (nonlinear_arith)
            requires
                a > 0,
        ;
    }
    y & !m
}

/// Where the timer uniform and the vertices sit in the combined buffer.
#[derive(Debug, Clone, Copy, PartialEq, Eq, Structural)]
pub struct BufferLayout {
    /// Offset of the vertex region: the timer size rounded up to the vertex alignment.
    pub vertex_offset: usize,
    /// Size of the combined buffer and of the staging buffer.
    pub size: usize,
    /// Number of bytes, from offset 0, that the uniform descriptor covers.
    pub uniform_range: usize,
}

/// Size in bytes of the triangle's vertex data.
pub open spec fn triangle_bytes() -> int {
    TRIANGLE_VERTEX_COUNT * VERTEX_SIZE
}

/// Lays out the combined buffer: the timer at offset 0, the triangle at the
/// next 16-byte boundary after it, and the descriptor over the timer alone.
pub fn buffer_layout() -> (r: BufferLayout)
    ensures
        r.vertex_offset == align_up(TIMER_SIZE as int, VERTEX_ALIGN as int),
        r.vertex_offset % VERTEX_ALIGN == 0,
        TIMER_SIZE <= r.vertex_offset < TIMER_SIZE + VERTEX_ALIGN,
        r.size == r.vertex_offset + triangle_bytes(),
        r.uniform_range == TIMER_SIZE,
{
    proof {
        lemma2_to64();
        assert(is_pow2(VERTEX_ALIGN));
    }
    let vertex_offset = align2(TIMER_SIZE, VERTEX_ALIGN);
    BufferLayout {
        vertex_offset,
        size: vertex_offset + TRIANGLE_VERTEX_COUNT * VERTEX_SIZE,
        uniform_range: TIMER_SIZE,
    }
}

} // verus!
