//! Little-endian byte layout of the GPU-resident buffers.
//!
//! Every buffer the render pipeline uploads is a sequence of 32-bit words:
//! integer tunables as they stand and real values as IEEE-754 bit
//! patterns. This module pins the exact bytes produced for a word
//! sequence, so each upload form is a proved function of the model state.

use vstd::prelude::*;

use crate::camera::CameraRaw;

verus! {

/// The four bytes of one 32-bit word, least significant first.
pub open spec fn le_bytes(w: u32) -> Seq<u8> {
    seq![
        (w & 0xff) as u8,
        ((w >> 8) & 0xff) as u8,
        ((w >> 16) & 0xff) as u8,
        ((w >> 24) & 0xff) as u8,
    ]
}

/// A word sequence flattened to little-endian bytes.
pub open spec fn words_bytes(ws: Seq<u32>) -> Seq<u8>
    decreases ws.len(),
{
    if ws.len() == 0 {
        Seq::empty()
    } else {
        le_bytes(ws[0]) + words_bytes(ws.drop_first())
    }
}

pub proof fn lemma_words_bytes_len(ws: Seq<u32>)
    ensures
        words_bytes(ws).len() == 4 * ws.len(),
    decreases ws.len(),
{
    if ws.len() > 0 {
        lemma_words_bytes_len(ws.drop_first());
    }
}

pub proof fn lemma_words_bytes_push(ws: Seq<u32>, w: u32)
    ensures
        words_bytes(ws.push(w)) == words_bytes(ws) + le_bytes(w),
    decreases ws.len(),
{
    if ws.len() == 0 {
        assert(ws.push(w)[0] == w);
        assert(ws.push(w).drop_first() =~= Seq::<u32>::empty());
        assert(words_bytes(ws.push(w).drop_first()) =~= Seq::<u8>::empty());
        assert(words_bytes(ws.push(w)) =~= words_bytes(ws) + le_bytes(w));
    } else {
        assert(ws.push(w).drop_first() =~= ws.drop_first().push(w));
        lemma_words_bytes_push(ws.drop_first(), w);
        assert(words_bytes(ws.push(w)) =~= words_bytes(ws) + le_bytes(w));
    }
}

/// Append one word to a byte buffer, least significant byte first.
pub fn push_word_le(out: &mut Vec<u8>, w: u32)
    ensures
        final(out)@ == old(out)@ + le_bytes(w),
{
    out.push((w & 0xff) as u8);
    out.push(((w >> 8) & 0xff) as u8);
    out.push(((w >> 16) & 0xff) as u8);
    out.push(((w >> 24) & 0xff) as u8);
    proof {
        assert(out@ =~= old(out)@ + le_bytes(w));
    }
}

/// Flatten a word buffer to its little-endian bytes.
pub fn words_to_bytes(words: &Vec<u32>) -> (r: Vec<u8>)
    ensures
        r@ == words_bytes(words@),
        r@.len() == 4 * words@.len(),
{
    let mut r: Vec<u8> = Vec::new();
    let n = words.len();
    let mut i: usize = 0;
    while i < n
        invariant
            n == words@.len(),
            i <= n,
            r@ == words_bytes(words@.take(i as int)),
        decreases n - i,
    {
        proof {
            lemma_words_bytes_push(words@.take(i as int), words@[i as int]);
            assert(words@.take(i as int).push(words@[i as int]) =~= words@.take(i as int + 1));
        }
        push_word_le(&mut r, words[i]);
        i = i + 1;
    }
    proof {
        assert(words@.take(n as int) =~= words@);
        lemma_words_bytes_len(words@);
    }
    r
}

/// Append the sixteen entries of a column-major matrix.
fn push_matrix_words(out: &mut Vec<u32>, m: &[u32; 16])
    ensures
        final(out)@ == old(out)@ + m@,
{
    let mut i: usize = 0;
    while i < 16
        invariant
            i <= 16,
            out@ == old(out)@ + m@.take(i as int),
        decreases 16 - i,
    {
        out.push(m[i]);
        proof {
            assert(old(out)@ + m@.take(i as int + 1)
                =~= (old(out)@ + m@.take(i as int)).push(m@[i as int]));
        }
        i = i + 1;
    }
    proof {
        assert(m@.take(16) =~= m@);
    }
}

impl CameraRaw {
    /// The words of the uniform block, in upload order: the two matrices,
    /// the widened position, the focal length, then the three tunables.
    pub open spec fn spec_words(self) -> Seq<u32> {
        self.world_to_pixel@ + self.pixel_to_world@ + self.pos@ + seq![
            self.focal_length,
            self.samples_per_pixel,
            self.frames_to_render,
            self.current_frame,
        ]
    }

    /// Serialize the uniform block for upload: 40 words, 160 bytes.
    pub fn to_bytes(&self) -> (r: Vec<u8>)
        ensures
            r@ == words_bytes(self.spec_words()),
            r@.len() == 160,
    {
        let mut words: Vec<u32> = Vec::new();
        push_matrix_words(&mut words, &self.world_to_pixel);
        push_matrix_words(&mut words, &self.pixel_to_world);
        words.push(self.pos[0]);
        words.push(self.pos[1]);
        words.push(self.pos[2]);
        words.push(self.pos[3]);
        words.push(self.focal_length);
        words.push(self.samples_per_pixel);
        words.push(self.frames_to_render);
        words.push(self.current_frame);
        proof {
            assert(words@ =~= self.spec_words());
            lemma_words_bytes_len(self.spec_words());
        }
        words_to_bytes(&words)
    }
}

} // verus!
