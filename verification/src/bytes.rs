use vstd::prelude::*;

verus! {

/// The four bytes of `x`, least significant first.
pub open spec fn le_bytes(x: u32) -> Seq<u8> {
    seq![
        (x % 0x100) as u8,
        ((x / 0x100) % 0x100) as u8,
        ((x / 0x1_0000) % 0x100) as u8,
        (x / 0x100_0000) as u8,
    ]
}

/// The four bytes of `x`, most significant first.
pub open spec fn be_bytes(x: u32) -> Seq<u8> {
    seq![
        (x / 0x100_0000) as u8,
        ((x / 0x1_0000) % 0x100) as u8,
        ((x / 0x100) % 0x100) as u8,
        (x % 0x100) as u8,
    ]
}

/// The bytes of `x` in the given byte order.
pub open spec fn word_bytes(x: u32, big_endian: bool) -> Seq<u8> {
    if big_endian {
        be_bytes(x)
    } else {
        le_bytes(x)
    }
}

/// The bytes of a sequence of words laid out one after another in memory,
/// each in the given byte order.
pub open spec fn words_bytes(words: Seq<u32>, big_endian: bool) -> Seq<u8>
    decreases words.len(),
{
    if words.len() == 0 {
        Seq::empty()
    } else {
        words_bytes(words.drop_last(), big_endian) + word_bytes(words.last(), big_endian)
    }
}

/// The memory of a slice of words has four bytes per word, and bytes
/// `4 * i .. 4 * i + 4` are word `i` in the machine's byte order.
pub proof fn lemma_words_bytes_layout(words: Seq<u32>, big_endian: bool)
    ensures
        words_bytes(words, big_endian).len() == 4 * words.len(),
        forall|i: int|
            0 <= i < words.len() ==> words_bytes(words, big_endian).subrange(4 * i, 4 * i + 4)
                == #[trigger] word_bytes(words[i], big_endian),
    decreases words.len(),
{
    if words.len() > 0 {
        let init = words.drop_last();
        lemma_words_bytes_layout(init, big_endian);
        let b = words_bytes(words, big_endian);
        let bi = words_bytes(init, big_endian);
        assert forall|i: int| 0 <= i < words.len() implies b.subrange(4 * i, 4 * i + 4)
            == #[trigger] word_bytes(words[i], big_endian) by {
            if i < init.len() {
                assert(init[i] == words[i]);
                assert(b.subrange(4 * i, 4 * i + 4) =~= bi.subrange(4 * i, 4 * i + 4));
            } else {
                assert(b.subrange(4 * i, 4 * i + 4) =~= word_bytes(words.last(), big_endian));
            }
        }
    }
}

/// Views the memory of a slice of `u32` as bytes with `bytemuck::cast_slice`.
///
/// `cast_slice` from `u32` to `u8` cannot fail: the target alignment is one
/// and the byte length is a multiple of one, so it reinterprets the slice's
/// memory as `4 * words.len()` bytes. Rust stores each word in the machine's
/// native byte order, which is either little or big endian; which of the two
/// depends on the machine and is left open.
#[verifier::external_body]
pub(crate) fn u32s_as_bytes(words: &[u32]) -> (bytes: &[u8])
    ensures
        bytes@ == words_bytes(words@, false) || bytes@ == words_bytes(words@, true),
{
    bytemuck::cast_slice(words)
}

} // verus!
