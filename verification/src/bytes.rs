//! Byte images of uniform-buffer contents.
//!
//! A uniform buffer holding 32-bit values contains their bit images laid out
//! word by word, each word little-endian. The encoder here produces exactly
//! that byte sequence from the words' bit images.

use vstd::prelude::*;

verus! {


/// Little-endian byte encoding of a 32-bit word, as it is laid out in a
/// GPU-visible uniform buffer.
pub open spec fn word_le_bytes(w: u32) -> Seq<u8> {
    seq![
        (w % 256) as u8,
        ((w / 256) % 256) as u8,
        ((w / 65536) % 256) as u8,
        ((w / 16777216) % 256) as u8,
    ]
}

/// Flat little-endian encoding of a sequence of 32-bit words.
pub open spec fn words_le_bytes(ws: Seq<u32>) -> Seq<u8>
    decreases ws.len(),
{
    if ws.len() == 0 {
        Seq::empty()
    } else {
        word_le_bytes(ws[0]) + words_le_bytes(ws.drop_first())
    }
}

/// Appends the four little-endian bytes of `w` to `out`.
fn push_word_le(out: &mut Vec<u8>, w: u32)
    ensures
        final(out)@ == old(out)@ + word_le_bytes(w),
{
    out.push((w % 256) as u8);
    out.push(((w / 256) % 256) as u8);
    out.push(((w / 65536) % 256) as u8);
    out.push(((w / 16777216) % 256) as u8);
    assert(final(out)@ =~= old(out)@ + word_le_bytes(w));
}

/// Encodes a slice of 32-bit words into the exact byte image that a uniform
/// buffer holding them must contain, little-endian word by word.
pub fn encode_words_le(ws: &Vec<u32>) -> (r: Vec<u8>)
    ensures
        r@ == words_le_bytes(ws@),
        r@.len() == 4 * ws@.len(),
{
    let mut out: Vec<u8> = Vec::new();
    let mut i: usize = 0;
    while i < ws.len()
        invariant
            0 <= i <= ws@.len(),
            out@ == words_le_bytes(ws@.take(i as int)),
            out@.len() == 4 * i,
        decreases ws@.len() - i,
    {
        push_word_le(&mut out, ws[i]);
        proof {
            lemma_words_le_bytes_take_step(ws@, i as int);
        }
        i = i + 1;
    }
    proof {
        assert(ws@.take(ws@.len() as int) =~= ws@);
    }
    out
}

/// Taking one more word extends the encoding by that word's bytes.
proof fn lemma_words_le_bytes_take_step(ws: Seq<u32>, i: int)
    requires
        0 <= i < ws.len(),
    ensures
        words_le_bytes(ws.take(i + 1)) == words_le_bytes(ws.take(i)) + word_le_bytes(ws[i]),
    decreases i,
{
    if i == 0 {
        assert(ws.take(1)[0] == ws[0]);
        assert(ws.take(1).drop_first() =~= Seq::<u32>::empty());
        assert(words_le_bytes(Seq::<u32>::empty()) =~= Seq::<u8>::empty());
        assert(words_le_bytes(ws.take(1)) =~= word_le_bytes(ws[0]));
        assert(words_le_bytes(ws.take(0)) + word_le_bytes(ws[0]) =~= word_le_bytes(ws[0]));
    } else {
        lemma_words_le_bytes_take_step(ws.drop_first(), i - 1);
        assert(ws.take(i + 1).drop_first() =~= ws.drop_first().take(i));
        assert(ws.take(i).drop_first() =~= ws.drop_first().take(i - 1));
        assert(words_le_bytes(ws.take(i + 1)) == word_le_bytes(ws[0]) + words_le_bytes(
            ws.drop_first().take(i),
        ));
        assert(words_le_bytes(ws.take(i)) + word_le_bytes(ws[i]) =~= word_le_bytes(ws[0])
            + (words_le_bytes(ws.drop_first().take(i - 1)) + word_le_bytes(ws.drop_first()[i - 1])));
    }
}

} // verus!
