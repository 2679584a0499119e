use vstd::prelude::*;

verus! {

/// Whether the host stores the least significant byte of a word first.
pub open spec fn host_is_little() -> bool {
    vstd::endian::endianness() is Little
}

/// Byte `k` of a word, counted from the least significant one.
pub open spec fn byte_of(w: u32, k: int) -> u8 {
    if k == 0 {
        (w % 256) as u8
    } else if k == 1 {
        (w / 256 % 256) as u8
    } else if k == 2 {
        (w / 65536 % 256) as u8
    } else {
        (w / 16777216) as u8
    }
}

/// The word whose bytes are `b0` to `b3`, least significant first.
pub open spec fn word_of(b0: u8, b1: u8, b2: u8, b3: u8) -> u32 {
    (b0 + 256 * b1 + 65536 * b2 + 16777216 * b3) as u32
}

/// The bytes of `words`, four per word, in the given byte order.
pub open spec fn words_to_bytes(words: Seq<u32>, little: bool) -> Seq<u8> {
    Seq::new(
        4 * words.len(),
        |i: int|
            byte_of(
                words[i / 4],
                if little {
                    i % 4
                } else {
                    3 - i % 4
                },
            ),
    )
}

/// The words held by `bytes`, four bytes per word, in the given byte order.
/// Bytes after the last whole word are left out.
pub open spec fn bytes_to_words(bytes: Seq<u8>, little: bool) -> Seq<u32> {
    Seq::new(
        bytes.len() / 4,
        |i: int|
            if little {
                word_of(bytes[4 * i], bytes[4 * i + 1], bytes[4 * i + 2], bytes[4 * i + 3])
            } else {
                word_of(bytes[4 * i + 3], bytes[4 * i + 2], bytes[4 * i + 1], bytes[4 * i])
            },
    )
}

/// The bytes of `words` as the host lays them out.
pub open spec fn host_bytes(words: Seq<u32>) -> Seq<u8> {
    words_to_bytes(words, host_is_little())
}

/// The words that the host reads from `bytes`.
pub open spec fn host_words(bytes: Seq<u8>) -> Seq<u32> {
    bytes_to_words(bytes, host_is_little())
}

/// `bytemuck::cast_slice` from 32-bit words to bytes, copied into a vector.
/// Not proved here: that the outcome holds the bytes of each word in turn,
/// in the byte order of the host. The cast cannot fail in this direction,
/// since bytes need no alignment and every word is four of them.
#[verifier::external_body]
fn cast_words(words: &[u32]) -> (r: Vec<u8>)
    ensures
        r@ == host_bytes(words@),
{
    bytemuck::cast_slice::<u32, u8>(words).to_vec()
}

/// `bytemuck::pod_collect_to_vec` from bytes to 32-bit words. Not proved
/// here: that, for a whole number of words, word `i` of the outcome is made
/// of bytes `4 * i` to `4 * i + 3` in the byte order of the host. The
/// function copies into a fresh vector, so the bytes need no alignment.
#[verifier::external_body]
fn collect_words(bytes: &[u8]) -> (r: Vec<u32>)
    requires
        bytes@.len() % 4 == 0,
    ensures
        r@ == host_words(bytes@),
{
    bytemuck::pod_collect_to_vec::<u8, u32>(bytes)
}

/// The raw bytes of `words` in the byte order of the host.
pub fn encode_words(words: &[u32]) -> (r: Vec<u8>)
    ensures
        r@ == host_bytes(words@),
        r@.len() == 4 * words@.len(),
{
    cast_words(words)
}

/// The words held by `bytes` in the byte order of the host, or `None` when
/// `bytes` is not a whole number of words.
pub fn decode_words(bytes: &[u8]) -> (r: Option<Vec<u32>>)
    ensures
        r.is_some() <==> bytes@.len() % 4 == 0,
        r.is_some() ==> r.unwrap()@ == host_words(bytes@) && 4 * r.unwrap()@.len()
            == bytes@.len(),
{
    if bytes.len() % 4 != 0 {
        None
    } else {
        Some(collect_words(bytes))
    }
}

/// A word is made of its own four bytes.
pub proof fn word_of_its_bytes(w: u32)
    ensures
        word_of(byte_of(w, 0), byte_of(w, 1), byte_of(w, 2), byte_of(w, 3)) == w,
{
}

/// Decoding what was encoded gives the words back, in either byte order.
pub proof fn decode_of_encode(words: Seq<u32>, little: bool)
    ensures
        bytes_to_words(words_to_bytes(words, little), little) == words,
{
    let bytes = words_to_bytes(words, little);
    let back = bytes_to_words(bytes, little);
    assert(back.len() == words.len());
    assert forall|i: int| 0 <= i < words.len() implies back[i] == words[i] by {
        word_of_its_bytes(words[i]);
        assert((4 * i) / 4 == i && (4 * i) % 4 == 0);
        assert((4 * i + 1) / 4 == i && (4 * i + 1) % 4 == 1);
        assert((4 * i + 2) / 4 == i && (4 * i + 2) % 4 == 2);
        assert((4 * i + 3) / 4 == i && (4 * i + 3) % 4 == 3);
    }
    assert(back =~= words);
}

} // verus!
