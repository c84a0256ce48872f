//! Decoding SPIR-V shader code from the bytes of a `.spv` file.

use vstd::prelude::*;

verus! {

/// The magic number that opens every SPIR-V module.
pub const SPIRV_MAGIC: u32 = 0x0723_0203;

/// Word `i` of `b` read in little-endian byte order.
pub open spec fn le_word(b: Seq<u8>, i: int) -> int {
    b[4 * i] + 0x100 * b[4 * i + 1] + 0x1_0000 * b[4 * i + 2] + 0x100_0000 * b[4 * i + 3]
}

/// Word `i` of `b` read in big-endian byte order.
pub open spec fn be_word(b: Seq<u8>, i: int) -> int {
    0x100_0000 * b[4 * i] + 0x1_0000 * b[4 * i + 1] + 0x100 * b[4 * i + 2] + b[4 * i + 3]
}

/// The SPIR-V words that `b` encodes: `b` must be a whole number of 32-bit
/// words, at least one, and its first word must read as the magic number in
/// one byte order, which is then the byte order of every word. `None` for
/// any other input.
pub open spec fn spirv_words(b: Seq<u8>) -> Option<Seq<u32>> {
    if b.len() % 4 != 0 || b.len() < 4 {
        None
    } else if le_word(b, 0) == SPIRV_MAGIC {
        Some(Seq::new(b.len() / 4, |i: int| le_word(b, i) as u32))
    } else if be_word(b, 0) == SPIRV_MAGIC {
        Some(Seq::new(b.len() / 4, |i: int| be_word(b, i) as u32))
    } else {
        None
    }
}

/// Calls `ash::util::read_spv` on the bytes (through an in-memory cursor).
/// Its contract claims what `read_spv`'s source shows: it fails unless the
/// length is a non-zero multiple of four and the first word is the SPIR-V
/// magic number in native or swapped byte order; otherwise it returns every
/// word, byte-swapped when the magic number was swapped, which is the same
/// as reading every word in the byte order that gives the magic number.
/// The error's kind and message are dropped.
#[verifier::external_body]
pub(crate) fn read_spv_words(bytes: &[u8]) -> (r: Option<Vec<u32>>)
    ensures
        match (r, spirv_words(bytes@)) {
            (Some(w), Some(s)) => w@ == s,
            (None, None) => true,
            _ => false,
        },
{
    ash::util::read_spv(&mut std::io::Cursor::new(bytes)).ok()
}

/// The four bytes of `x`, least significant first.
pub open spec fn le_bytes(x: u32) -> Seq<u8> {
    seq![(x & 0xff) as u8, ((x >> 8) & 0xff) as u8, ((x >> 16) & 0xff) as u8, ((x >> 24) & 0xff) as u8]
}

/// The four bytes of `x`, most significant first.
pub open spec fn be_bytes(x: u32) -> Seq<u8> {
    seq![((x >> 24) & 0xff) as u8, ((x >> 16) & 0xff) as u8, ((x >> 8) & 0xff) as u8, (x & 0xff) as u8]
}

/// The bytes of `words`, each word little-endian, or big-endian when
/// `big_endian` is set.
pub open spec fn encode(words: Seq<u32>, big_endian: bool) -> Seq<u8>
    decreases words.len(),
{
    if words.len() == 0 {
        seq![]
    } else {
        encode(words.drop_last(), big_endian) + (if big_endian {
            be_bytes(words.last())
        } else {
            le_bytes(words.last())
        })
    }
}

proof fn lemma_word_roundtrip(x: u32)
    ensures
        le_word(le_bytes(x), 0) == x,
        be_word(be_bytes(x), 0) == x,
{
    let b0 = x & 0xff;
    let b1 = (x >> 8) & 0xff;
    let b2 = (x >> 16) & 0xff;
    let b3 = (x >> 24) & 0xff;
    assert(b0 + 0x100 * b1 + 0x1_0000 * b2 + 0x100_0000 * b3 == x && b0 < 0x100 && b1 < 0x100 && b2 < 0x100
        && b3 < 0x100) by (bit_vector)
        requires
            b0 == x & 0xff,
            b1 == (x >> 8) & 0xff,
            b2 == (x >> 16) & 0xff,
            b3 == (x >> 24) & 0xff,
    ;
}

proof fn lemma_encode_len_and_words(words: Seq<u32>, big_endian: bool)
    ensures
        encode(words, big_endian).len() == 4 * words.len(),
        forall|i: int|
            0 <= i < words.len() ==> (if big_endian {
                be_word(encode(words, big_endian), i)
            } else {
                le_word(encode(words, big_endian), i)
            }) == #[trigger] words[i],
    decreases words.len(),
{
    if words.len() > 0 {
        let init = words.drop_last();
        let x = words.last();
        lemma_encode_len_and_words(init, big_endian);
        lemma_word_roundtrip(x);
        let e = encode(words, big_endian);
        let ei = encode(init, big_endian);
        let tail = if big_endian { be_bytes(x) } else { le_bytes(x) };
        assert(e == ei + tail);
        assert forall|i: int| 0 <= i < words.len() implies (if big_endian {
            be_word(e, i)
        } else {
            le_word(e, i)
        }) == #[trigger] words[i] by {
            if i < init.len() {
                assert(e[4 * i] == ei[4 * i]);
                assert(e[4 * i + 1] == ei[4 * i + 1]);
                assert(e[4 * i + 2] == ei[4 * i + 2]);
                assert(e[4 * i + 3] == ei[4 * i + 3]);
                assert(init[i] == words[i]);
            } else {
                assert(e[4 * i] == tail[0]);
                assert(e[4 * i + 1] == tail[1]);
                assert(e[4 * i + 2] == tail[2]);
                assert(e[4 * i + 3] == tail[3]);
            }
        }
    }
}

/// A SPIR-V module reads back as the same words whichever byte order its
/// file uses: the bytes of words that open with the magic number decode to
/// those words, written little-endian or big-endian.
pub proof fn lemma_spirv_either_byte_order(words: Seq<u32>, big_endian: bool)
    requires
        words.len() > 0,
        words[0] == SPIRV_MAGIC,
    ensures
        spirv_words(encode(words, big_endian)) == Some(words),
{
    lemma_encode_len_and_words(words, big_endian);
    let e = encode(words, big_endian);
    if big_endian {
        // The magic number is not a byte palindrome: read little-endian it
        // is another number.
        assert(le_word(e, 0) != SPIRV_MAGIC) by {
            assert(be_word(e, 0) == SPIRV_MAGIC);
        }
        assert(Seq::new(e.len() / 4, |i: int| be_word(e, i) as u32) =~= words);
    } else {
        assert(Seq::new(e.len() / 4, |i: int| le_word(e, i) as u32) =~= words);
    }
}

} // verus!
