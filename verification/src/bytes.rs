//! Byte images of 16- and 32-bit values, as a GPU buffer holds them.

use vstd::prelude::*;
use vstd::slice::slice_to_vec;

verus! {

/// The order in which the bytes of a multi-byte value lie in memory.
#[derive(Clone, Copy, Debug, PartialEq, Eq, Structural)]
pub enum ByteOrder {
    /// Least significant byte first.
    Little,
    /// Most significant byte first.
    Big,
}

/// The two bytes of `value`, in the given order.
pub open spec fn half_image(order: ByteOrder, value: u16) -> Seq<u8> {
    let lo = (value % 256) as u8;
    let hi = (value / 256) as u8;
    match order {
        ByteOrder::Little => seq![lo, hi],
        ByteOrder::Big => seq![hi, lo],
    }
}

/// The four bytes of `value`, in the given order.
pub open spec fn word_image(order: ByteOrder, value: u32) -> Seq<u8> {
    let b0 = (value % 256) as u8;
    let b1 = (value / 256 % 256) as u8;
    let b2 = (value / 65536 % 256) as u8;
    let b3 = (value / 16777216) as u8;
    match order {
        ByteOrder::Little => seq![b0, b1, b2, b3],
        ByteOrder::Big => seq![b3, b2, b1, b0],
    }
}

/// The byte image of a sequence of 16-bit values: two bytes for each value,
/// the values in sequence order.
pub open spec fn halves_image(order: ByteOrder, values: Seq<u16>) -> Seq<u8> {
    Seq::new(2 * values.len(), |i: int| half_image(order, values[i / 2])[i % 2])
}

/// The byte image of a sequence of 32-bit values: four bytes for each value,
/// the values in sequence order.
pub open spec fn words_image(order: ByteOrder, values: Seq<u32>) -> Seq<u8> {
    Seq::new(4 * values.len(), |i: int| word_image(order, values[i / 4])[i % 4])
}

/// `bytes` is the image of `values` in one of the two byte orders. This is
/// what holds of the memory of 16-bit values on any machine.
pub open spec fn is_native_halves_image(bytes: Seq<u8>, values: Seq<u16>) -> bool {
    bytes == halves_image(ByteOrder::Little, values) || bytes == halves_image(
        ByteOrder::Big,
        values,
    )
}

/// `bytes` is the image of `values` in one of the two byte orders. This is
/// what holds of the memory of 32-bit values on any machine.
pub open spec fn is_native_words_image(bytes: Seq<u8>, values: Seq<u32>) -> bool {
    bytes == words_image(ByteOrder::Little, values) || bytes == words_image(
        ByteOrder::Big,
        values,
    )
}

/// Calls `bytemuck::cast_slice::<u16, u8>`, which hands out the memory of the
/// slice as bytes. Trusted, not proved: the result holds the two bytes of each
/// value in turn, all in little-endian or all in big-endian order, as the
/// machine stores them. The cast to `u8` does not panic: bytes have no
/// alignment and any length is a whole number of them.
#[verifier::external_body]
fn cast_halves(values: &[u16]) -> (bytes: &[u8])
    ensures
        is_native_halves_image(bytes@, values@),
{
    bytemuck::cast_slice(values)
}

/// Calls `bytemuck::cast_slice::<u32, u8>`, which hands out the memory of the
/// slice as bytes. Trusted, not proved: the result holds the four bytes of
/// each value in turn, all in little-endian or all in big-endian order, as the
/// machine stores them. The cast to `u8` does not panic: bytes have no
/// alignment and any length is a whole number of them.
#[verifier::external_body]
fn cast_words(values: &[u32]) -> (bytes: &[u8])
    ensures
        is_native_words_image(bytes@, values@),
{
    bytemuck::cast_slice(values)
}

/// The bytes of `values` as the machine lays them out: what a GPU buffer
/// initialised from the slice holds.
pub fn halves_to_bytes(values: &[u16]) -> (bytes: Vec<u8>)
    ensures
        is_native_halves_image(bytes@, values@),
        bytes@.len() == 2 * values@.len(),
{
    slice_to_vec(cast_halves(values))
}

/// The bytes of `values` as the machine lays them out: what a GPU buffer
/// initialised from the slice holds.
pub fn words_to_bytes(values: &[u32]) -> (bytes: Vec<u8>)
    ensures
        is_native_words_image(bytes@, values@),
        bytes@.len() == 4 * values@.len(),
{
    slice_to_vec(cast_words(values))
}

/// The 32-bit value whose image in the given order is the four bytes `bytes`.
pub open spec fn word_of_image(order: ByteOrder, bytes: Seq<u8>) -> u32
    recommends
        bytes.len() == 4,
{
    match order {
        ByteOrder::Little => (bytes[0] + 256 * bytes[1] + 65536 * bytes[2] + 16777216
            * bytes[3]) as u32,
        ByteOrder::Big => (bytes[3] + 256 * bytes[2] + 65536 * bytes[1] + 16777216
            * bytes[0]) as u32,
    }
}

/// The 32-bit values read back from a byte image, four bytes for each value.
pub open spec fn words_of_image(order: ByteOrder, bytes: Seq<u8>) -> Seq<u32> {
    Seq::new(
        bytes.len() / 4,
        |i: int| word_of_image(order, bytes.subrange(4 * i, 4 * i + 4)),
    )
}

/// Reading the image of one 32-bit value gives the value back.
pub proof fn lemma_word_image_round_trip(order: ByteOrder, value: u32)
    ensures
        word_image(order, value).len() == 4,
        word_of_image(order, word_image(order, value)) == value,
{
}

/// Writing 32-bit values as bytes and reading the bytes back in the same
/// order yields the values that were written, whatever the order is.
pub proof fn lemma_words_image_round_trip(order: ByteOrder, values: Seq<u32>)
    ensures
        words_image(order, values).len() == 4 * values.len(),
        words_of_image(order, words_image(order, values)) == values,
{
    let image = words_image(order, values);
    let back = words_of_image(order, image);
    assert(back.len() == values.len());
    assert forall|i: int| 0 <= i < values.len() implies back[i] == values[i] by {
        let chunk = image.subrange(4 * i, 4 * i + 4);
        assert forall|k: int| 0 <= k < 4 implies chunk[k] == word_image(order, values[i])[k] by {
            assert((4 * i + k) / 4 == i);
            assert((4 * i + k) % 4 == k);
        }
        assert(chunk =~= word_image(order, values[i]));
        lemma_word_image_round_trip(order, values[i]);
    }
    assert(back =~= values);
}

} // verus!
