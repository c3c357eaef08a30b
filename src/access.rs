//! The access-state word of a storage core.
//!
//! One `u64` packs two counters: the low half counts the read-capable
//! references (read views), the high half counts the write-capable ones
//! (write views).  A single atomic operation on the word can then both adjust
//! a counter and learn whether the other kind of access is present.
use vstd::prelude::*;

verus! {

/// Position of the writer field inside the access word.
pub const WRITER_SHIFT: u64 = 32;

/// Mask that selects the reader field of the access word.
pub const READER_MASK: u64 = 0xFFFF_FFFF;

/// The access word with no reference of either kind.
pub const NO_ACCESS: u64 = 0;

/// One unit of the reader field.
pub const ONE_READER: u64 = 1;

/// One unit of the writer field.
pub const ONE_WRITER: u64 = 0x1_0000_0000;

/// Number of read-capable references recorded in `word`.
pub open spec fn reader_count(word: u64) -> u64 {
    word & READER_MASK
}

/// Number of write-capable references recorded in `word`.
pub open spec fn writer_count(word: u64) -> u64 {
    word >> WRITER_SHIFT
}

/// Largest value that either field can hold.
pub open spec fn field_max() -> u64 {
    READER_MASK
}

/// The access word that records `readers` read references and `writers`
/// write references.
pub open spec fn encode(readers: u64, writers: u64) -> u64 {
    (writers << WRITER_SHIFT) | readers
}

/// Whether a reader may be admitted, given the word as it stood just before
/// the reader's own unit was added to it.
pub fn admits_reader(prior: u64) -> (r: bool)
    ensures
        r == (writer_count(prior) == 0),
{
    prior >> WRITER_SHIFT == 0
}

/// Whether `prior`, the word observed by a failed attempt, had writers.
pub fn has_writers(word: u64) -> (r: bool)
    ensures
        r == (writer_count(word) != 0),
{
    word >> WRITER_SHIFT != 0
}

/// Every word is the encoding of its two fields.
pub proof fn lemma_word_is_encoding(word: u64)
    ensures
        reader_count(word) <= field_max(),
        writer_count(word) <= field_max(),
        word == encode(reader_count(word), writer_count(word)),
{
    assert(word & 0xFFFF_FFFF <= 0xFFFF_FFFF) by (bit_vector);
    assert(word >> 32 <= 0xFFFF_FFFF) by (bit_vector);
    assert(word == ((word >> 32) << 32) | (word & 0xFFFF_FFFF)) by (bit_vector);
}

/// Decoding an encoded word gives back both counters.
pub proof fn lemma_encode_fields(readers: u64, writers: u64)
    requires
        readers <= field_max(),
        writers <= field_max(),
    ensures
        reader_count(encode(readers, writers)) == readers,
        writer_count(encode(readers, writers)) == writers,
{
    assert(readers <= 0xFFFF_FFFF && writers <= 0xFFFF_FFFF ==> ((writers << 32) | readers)
        & 0xFFFF_FFFF == readers) by (bit_vector);
    assert(readers <= 0xFFFF_FFFF && writers <= 0xFFFF_FFFF ==> ((writers << 32) | readers) >> 32
        == writers) by (bit_vector);
}

/// Adding one reader unit to the word counts one more reader and leaves the
/// writers as they were; taking one away undoes it.
pub proof fn lemma_reader_unit(readers: u64, writers: u64)
    requires
        readers < field_max(),
        writers <= field_max(),
    ensures
        encode(readers, writers) + ONE_READER == encode((readers + 1) as u64, writers),
        encode((readers + 1) as u64, writers) - ONE_READER == encode(readers, writers),
{
    let next = (readers + 1) as u64;
    assert(readers < 0xFFFF_FFFF && writers <= 0xFFFF_FFFF && next == readers + 1 ==> ((writers
        << 32) | readers) + 1 == ((writers << 32) | next)) by (bit_vector);
}

/// Adding one writer unit to the word counts one more writer and leaves the
/// readers as they were; taking one away undoes it.
pub proof fn lemma_writer_unit(readers: u64, writers: u64)
    requires
        readers <= field_max(),
        writers < field_max(),
    ensures
        encode(readers, writers) + ONE_WRITER == encode(readers, (writers + 1) as u64),
        encode(readers, (writers + 1) as u64) - ONE_WRITER == encode(readers, writers),
{
    let next = (writers + 1) as u64;
    assert(readers <= 0xFFFF_FFFF && writers < 0xFFFF_FFFF && next == writers + 1 ==> ((writers
        << 32) | readers) + 0x1_0000_0000 == ((next << 32) | readers)) by (bit_vector);
}

/// Readers and writers exclude each other: while a read view is counted, a
/// write admission (which swaps the word from `NO_ACCESS` only) cannot
/// succeed, and while a write view is counted, a read admission refuses.
pub proof fn lemma_exclusive_admission(readers: u64, writers: u64)
    requires
        readers <= field_max(),
        writers <= field_max(),
    ensures
        readers > 0 ==> encode(readers, writers) != NO_ACCESS,
        writers > 0 ==> encode(readers, writers) != NO_ACCESS,
        writers > 0 ==> writer_count(encode(readers, writers)) != 0,
        writers == 0 ==> writer_count(encode(readers, writers)) == 0,
{
    lemma_encode_fields(readers, writers);
    assert(reader_count(NO_ACCESS) == 0 && writer_count(NO_ACCESS) == 0) by (bit_vector);
}

/// An upgrade from read to write swaps the word from `ONE_READER` only, so it
/// succeeds exactly when the upgrading view is the one reference of any kind.
pub proof fn lemma_upgrade_needs_sole_reader(readers: u64, writers: u64)
    requires
        readers <= field_max(),
        writers <= field_max(),
    ensures
        (encode(readers, writers) == ONE_READER) <==> (readers == 1 && writers == 0),
{
    lemma_encode_fields(readers, writers);
    lemma_encode_fields(1, 0);
    assert(encode(1, 0) == ONE_READER) by (bit_vector);
}

} // verus!
