//! The shader-parameter record and its fixed wire layout.
//!
//! The record is eight little-endian 32-bit words, 32 bytes in all:
//!
//! | offset | field            |
//! |--------|------------------|
//! | 0      | `resolution_x`   |
//! | 4      | `resolution_y`   |
//! | 8      | `elapsed_bits`   |
//! | 12     | `pointer_x_bits` |
//! | 16     | `pointer_y_bits` |
//! | 20..32 | zero padding     |
//!
//! The three float fields of the shader block are carried as their IEEE-754
//! bit patterns, so the record holds integers only.
use vstd::bytes::{
    lemma_auto_spec_u32_to_from_le_bytes, spec_u32_from_le_bytes, spec_u32_to_le_bytes,
    u32_from_le_bytes, u32_to_le_bytes,
};
use vstd::prelude::*;
use vstd::slice::slice_subrange;

verus! {

/// Size in bytes of the uniform block that the shader binds.
pub const UNIFORM_SIZE: usize = 32;

/// Per-frame inputs of the fragment shader.
#[derive(Clone, Copy, Debug, PartialEq, Eq, Structural)]
pub struct UniformState {
    pub resolution_x: u32,
    pub resolution_y: u32,
    /// Seconds since the session started, as the bits of an `f32`.
    pub elapsed_bits: u32,
    /// Pointer position, as the bits of an `f32`.
    pub pointer_x_bits: u32,
    /// Pointer position, as the bits of an `f32`.
    pub pointer_y_bits: u32,
}

/// The four little-endian bytes of `w`.
pub open spec fn le_word(w: u32) -> Seq<u8> {
    spec_u32_to_le_bytes(w)
}

/// The word stored little-endian in the four bytes of `b` starting at `at`.
pub open spec fn word_at(b: Seq<u8>, at: int) -> u32 {
    spec_u32_from_le_bytes(b.subrange(at, at + 4))
}

/// The record that the 32 bytes `b` encode; the padding is not read.
pub open spec fn decode(b: Seq<u8>) -> UniformState {
    UniformState {
        resolution_x: word_at(b, 0),
        resolution_y: word_at(b, 4),
        elapsed_bits: word_at(b, 8),
        pointer_x_bits: word_at(b, 12),
        pointer_y_bits: word_at(b, 16),
    }
}

impl UniformState {
    /// The eight words of the block, in layout order, padding included.
    pub open spec fn words(self) -> Seq<u32> {
        seq![
            self.resolution_x,
            self.resolution_y,
            self.elapsed_bits,
            self.pointer_x_bits,
            self.pointer_y_bits,
            0u32,
            0u32,
            0u32,
        ]
    }

    /// The bytes of the block as the shader reads them.
    pub open spec fn encoding(self) -> Seq<u8> {
        le_word(self.resolution_x) + le_word(self.resolution_y) + le_word(self.elapsed_bits)
            + le_word(self.pointer_x_bits) + le_word(self.pointer_y_bits) + le_word(0u32)
            + le_word(0u32) + le_word(0u32)
    }

    /// Builds the record from the session's current values.
    pub fn from_session(
        resolution_x: u32,
        resolution_y: u32,
        elapsed_bits: u32,
        pointer_x_bits: u32,
        pointer_y_bits: u32,
    ) -> (r: UniformState)
        ensures
            r == (UniformState {
                resolution_x,
                resolution_y,
                elapsed_bits,
                pointer_x_bits,
                pointer_y_bits,
            }),
    {
        UniformState { resolution_x, resolution_y, elapsed_bits, pointer_x_bits, pointer_y_bits }
    }

    /// The bytes to write into the uniform buffer.
    pub fn to_bytes(&self) -> (r: Vec<u8>)
        ensures
            r@ == self.encoding(),
            r@.len() == UNIFORM_SIZE,
    {
        proof {
            lemma_auto_spec_u32_to_from_le_bytes();
        }
        let mut out: Vec<u8> = Vec::new();
        out.append(&mut u32_to_le_bytes(self.resolution_x));
        out.append(&mut u32_to_le_bytes(self.resolution_y));
        out.append(&mut u32_to_le_bytes(self.elapsed_bits));
        out.append(&mut u32_to_le_bytes(self.pointer_x_bits));
        out.append(&mut u32_to_le_bytes(self.pointer_y_bits));
        out.append(&mut u32_to_le_bytes(0));
        out.append(&mut u32_to_le_bytes(0));
        out.append(&mut u32_to_le_bytes(0));
        out
    }

    /// Reads a record back from the bytes of a uniform block; `None` unless
    /// exactly `UNIFORM_SIZE` bytes are given.
    pub fn from_bytes(b: &[u8]) -> (r: Option<UniformState>)
        ensures
            b@.len() == UNIFORM_SIZE ==> r == Some(decode(b@)),
            b@.len() != UNIFORM_SIZE ==> r is None,
    {
        if b.len() != UNIFORM_SIZE {
            return None;
        }
        Some(
            UniformState {
                resolution_x: u32_from_le_bytes(slice_subrange(b, 0, 4)),
                resolution_y: u32_from_le_bytes(slice_subrange(b, 4, 8)),
                elapsed_bits: u32_from_le_bytes(slice_subrange(b, 8, 12)),
                pointer_x_bits: u32_from_le_bytes(slice_subrange(b, 12, 16)),
                pointer_y_bits: u32_from_le_bytes(slice_subrange(b, 16, 20)),
            },
        )
    }
}

/// The block is `UNIFORM_SIZE` bytes whatever the record holds, and reading
/// the bytes back gives the record unchanged.
pub proof fn lemma_layout_round_trip(s: UniformState)
    ensures
        s.encoding().len() == UNIFORM_SIZE,
        decode(s.encoding()) == s,
{
    lemma_auto_spec_u32_to_from_le_bytes();
    let e = s.encoding();
    assert(e.subrange(0, 4) =~= le_word(s.resolution_x));
    assert(e.subrange(4, 8) =~= le_word(s.resolution_y));
    assert(e.subrange(8, 12) =~= le_word(s.elapsed_bits));
    assert(e.subrange(12, 16) =~= le_word(s.pointer_x_bits));
    assert(e.subrange(16, 20) =~= le_word(s.pointer_y_bits));
}

} // verus!
