//! Encoding and decoding between sequences of unsigned 32-bit integers and
//! the raw little-endian bytes held by device buffers: the input side of the
//! Buffer Provisioner and the whole of the Readback Decoder.

use vstd::prelude::*;
use vstd::assert_seqs_equal;

verus! {

/// The four little-endian bytes of one 32-bit word.
pub open spec fn word_bytes(w: u32) -> Seq<u8> {
    seq![
        (w & 0xff) as u8,
        ((w >> 8) & 0xff) as u8,
        ((w >> 16) & 0xff) as u8,
        ((w >> 24) & 0xff) as u8,
    ]
}

/// The flat byte image of a word sequence: each word contributes its four
/// little-endian bytes, in order.
pub open spec fn bytes_of_words(ws: Seq<u32>) -> Seq<u8>
    decreases ws.len(),
{
    if ws.len() == 0 {
        Seq::empty()
    } else {
        word_bytes(ws[0]) + bytes_of_words(ws.drop_first())
    }
}

/// One 32-bit word reassembled from its four little-endian bytes.
pub open spec fn word_of_bytes(b0: u8, b1: u8, b2: u8, b3: u8) -> u32 {
    (b0 as u32) | ((b1 as u32) << 8) | ((b2 as u32) << 16) | ((b3 as u32) << 24)
}

/// The word sequence read back from a flat byte image, four bytes per word.
pub open spec fn words_of_bytes(bs: Seq<u8>) -> Seq<u32>
    recommends
        bs.len() % 4 == 0,
    decreases bs.len(),
{
    if bs.len() < 4 {
        Seq::empty()
    } else {
        seq![word_of_bytes(bs[0], bs[1], bs[2], bs[3])] + words_of_bytes(bs.skip(4))
    }
}

pub proof fn lemma_bytes_of_words_len(ws: Seq<u32>)
    ensures
        bytes_of_words(ws).len() == 4 * ws.len(),
    decreases ws.len(),
{
    if ws.len() > 0 {
        lemma_bytes_of_words_len(ws.drop_first());
    }
}

/// Appending one word to a sequence appends its four bytes to the image.
pub proof fn lemma_bytes_of_words_snoc(ws: Seq<u32>, w: u32)
    ensures
        bytes_of_words(ws + seq![w]) == bytes_of_words(ws) + word_bytes(w),
    decreases ws.len(),
{
    let ext = ws + seq![w];
    if ws.len() == 0 {
        reveal_with_fuel(bytes_of_words, 2);
        assert(ext[0] == w);
        assert_seqs_equal!(ext.drop_first() == Seq::<u32>::empty());
        assert(bytes_of_words(ext.drop_first()) == Seq::<u8>::empty());
        assert_seqs_equal!(bytes_of_words(ext) == bytes_of_words(ws) + word_bytes(w));
    } else {
        lemma_bytes_of_words_snoc(ws.drop_first(), w);
        assert_seqs_equal!(ext.drop_first() == ws.drop_first() + seq![w]);
        assert_seqs_equal!(bytes_of_words(ext) == bytes_of_words(ws) + word_bytes(w));
    }
}

/// Appending four bytes to an image of whole words appends the word they
/// spell to the decoded sequence.
pub proof fn lemma_words_of_bytes_snoc(bs: Seq<u8>, b0: u8, b1: u8, b2: u8, b3: u8)
    requires
        bs.len() % 4 == 0,
    ensures
        words_of_bytes(bs + seq![b0, b1, b2, b3]) == words_of_bytes(bs) + seq![
            word_of_bytes(b0, b1, b2, b3),
        ],
    decreases bs.len(),
{
    let ext = bs + seq![b0, b1, b2, b3];
    if bs.len() == 0 {
        reveal_with_fuel(words_of_bytes, 2);
        assert(ext[0] == b0 && ext[1] == b1 && ext[2] == b2 && ext[3] == b3);
        assert_seqs_equal!(ext.skip(4) == Seq::<u8>::empty());
        assert(words_of_bytes(ext.skip(4)) == Seq::<u32>::empty());
        assert_seqs_equal!(words_of_bytes(ext) ==
            words_of_bytes(bs) + seq![word_of_bytes(b0, b1, b2, b3)]);
    } else {
        lemma_words_of_bytes_snoc(bs.skip(4), b0, b1, b2, b3);
        assert_seqs_equal!(ext.skip(4) == bs.skip(4) + seq![b0, b1, b2, b3]);
        assert_seqs_equal!(words_of_bytes(ext) ==
            words_of_bytes(bs) + seq![word_of_bytes(b0, b1, b2, b3)]);
    }
}

proof fn lemma_word_round_trip(w: u32)
    ensures
        word_of_bytes(
            (w & 0xff) as u8,
            ((w >> 8) & 0xff) as u8,
            ((w >> 16) & 0xff) as u8,
            ((w >> 24) & 0xff) as u8,
        ) == w,
{
    assert((((w & 0xff) as u8) as u32) | (((((w >> 8) & 0xff) as u8) as u32) << 8) | (((((w >> 16)
        & 0xff) as u8) as u32) << 16) | (((((w >> 24) & 0xff) as u8) as u32) << 24) == w)
        by (bit_vector);
}

/// Decoding the byte image of a word sequence yields that sequence again:
/// encoding then decoding is the identity, for every word sequence.
pub proof fn lemma_codec_round_trip(ws: Seq<u32>)
    ensures
        bytes_of_words(ws).len() % 4 == 0,
        words_of_bytes(bytes_of_words(ws)) == ws,
    decreases ws.len(),
{
    lemma_bytes_of_words_len(ws);
    if ws.len() == 0 {
        assert_seqs_equal!(words_of_bytes(bytes_of_words(ws)) == ws);
    } else {
        let bs = bytes_of_words(ws);
        let rest = bytes_of_words(ws.drop_first());
        lemma_bytes_of_words_len(ws.drop_first());
        lemma_word_round_trip(ws[0]);
        lemma_codec_round_trip(ws.drop_first());
        assert_seqs_equal!(bs.skip(4) == rest);
        assert_seqs_equal!(words_of_bytes(bs) == ws);
    }
}

/// Flattens a word sequence into the little-endian bytes that populate a
/// device buffer.
pub fn encode_words(ws: &Vec<u32>) -> (r: Vec<u8>)
    ensures
        r@ == bytes_of_words(ws@),
        r@.len() == 4 * ws@.len(),
{
    let mut out: Vec<u8> = Vec::new();
    let mut i: usize = 0;
    proof {
        assert_seqs_equal!(ws@.take(0) == Seq::<u32>::empty());
    }
    while i < ws.len()
        invariant
            i <= ws@.len(),
            out@ == bytes_of_words(ws@.take(i as int)),
            out@.len() == 4 * i,
        decreases ws@.len() - i,
    {
        let w = ws[i];
        proof {
            lemma_bytes_of_words_snoc(ws@.take(i as int), w);
            assert_seqs_equal!(ws@.take(i + 1) == ws@.take(i as int) + seq![w]);
        }
        out.push((w & 0xff) as u8);
        out.push(((w >> 8) & 0xff) as u8);
        out.push(((w >> 16) & 0xff) as u8);
        out.push(((w >> 24) & 0xff) as u8);
        i = i + 1;
    }
    proof {
        assert_seqs_equal!(ws@.take(ws@.len() as int) == ws@);
        lemma_bytes_of_words_len(ws@);
    }
    out
}

/// Reinterprets a mapped buffer's raw bytes as 32-bit words, four bytes each
/// in little-endian order, copied into a new owned vector.
pub fn decode_words(bs: &Vec<u8>) -> (r: Vec<u32>)
    requires
        bs@.len() % 4 == 0,
    ensures
        r@ == words_of_bytes(bs@),
        r@.len() * 4 == bs@.len(),
{
    let mut out: Vec<u32> = Vec::new();
    let mut i: usize = 0;
    proof {
        assert_seqs_equal!(bs@.take(0) == Seq::<u8>::empty());
    }
    while i < bs.len()
        invariant
            i <= bs@.len(),
            i % 4 == 0,
            bs@.len() % 4 == 0,
            out@ == words_of_bytes(bs@.take(i as int)),
            out@.len() * 4 == i,
        decreases bs@.len() - i,
    {
        proof {
            assert(i + 4 <= bs@.len());
        }
        let b0 = bs[i];
        let b1 = bs[i + 1];
        let b2 = bs[i + 2];
        let b3 = bs[i + 3];
        let w = (b0 as u32) | ((b1 as u32) << 8) | ((b2 as u32) << 16) | ((b3 as u32) << 24);
        proof {
            lemma_words_of_bytes_snoc(bs@.take(i as int), b0, b1, b2, b3);
            assert_seqs_equal!(bs@.take(i + 4) == bs@.take(i as int) + seq![b0, b1, b2, b3]);
        }
        out.push(w);
        i = i + 4;
    }
    proof {
        assert_seqs_equal!(bs@.take(bs@.len() as int) == bs@);
    }
    out
}

} // verus!
