//! Corpus planning: the fixed-shape, randomized file tree that seeds a
//! dataset.
//!
//! A corpus is exactly `SEED_FILE_COUNT` files.  Each file sits under a
//! two-level fan-out of directories named by four hexadecimal digits,
//! carries a name of sixteen hexadecimal digits with a fixed extension,
//! and has a size drawn uniformly from `[FILE_MIN, FILE_MAX]` megabytes.
//! Content is written in 16 KiB chunks, each independently either random
//! or maximally compressible.  The binary around the library creates the
//! directories and writes the bytes; everything about the shape is
//! decided, and verified, here.

use vstd::prelude::*;
use crate::data::fill_block;
use crate::render::hex4_chars;
use crate::render::hex4_string;
use crate::render::hex16_chars;
use crate::render::hex16_string;
use crate::render::is_hex_char;
use crate::rng::rng_range_u64;
use crate::rng::rng_ratio;
use crate::rng::rng_u64;

verus! {

/// How many files a seed corpus holds.
pub const SEED_FILE_COUNT: usize = 1000;

/// The smallest file size, in megabytes.
pub const FILE_MIN: u64 = 2;

/// The largest file size, in megabytes.
pub const FILE_MAX: u64 = 32;

/// The size of one content chunk: 16 KiB.
pub const CHUNK_SIZE: usize = 16384;

/// How many 16 KiB chunks make one megabyte.
pub const CHUNKS_PER_MEGABYTE: u64 = 64;

/// The placement and size of one corpus file: two fan-out directory
/// names, the file name, and the size in megabytes.
pub struct FileSpec {
    pub dir0: String,
    pub dir1: String,
    pub name: String,
    pub size_mb: u64,
}

/// The fixed extension of every corpus file.
pub open spec fn dat_extension() -> Seq<char> {
    seq!['.', 'd', 'a', 't']
}

/// A well-formed corpus file: both fan-out names are exactly four
/// hexadecimal characters, the file name is sixteen hexadecimal
/// characters followed by the fixed extension, and the size lies in
/// `[FILE_MIN, FILE_MAX]` megabytes.
pub open spec fn wf_file_spec(f: FileSpec) -> bool {
    &&& f.dir0@.len() == 4
    &&& forall|i: int| 0 <= i < f.dir0@.len() ==> is_hex_char(f.dir0@[i])
    &&& f.dir1@.len() == 4
    &&& forall|i: int| 0 <= i < f.dir1@.len() ==> is_hex_char(f.dir1@[i])
    &&& f.name@.len() == 20
    &&& forall|i: int| 0 <= i < 16 ==> is_hex_char(f.name@[i])
    &&& f.name@.skip(16) == dat_extension()
    &&& FILE_MIN <= f.size_mb <= FILE_MAX
}

/// Draw the placement and size of one corpus file: two independent
/// fan-out draws over `[0, 16)`, a 64-bit name draw, and a size draw
/// over `[FILE_MIN, FILE_MAX]`.
pub fn corpus_file_spec(rng: &mut rand_chacha::ChaCha20Rng) -> (f: FileSpec)
    ensures
        wf_file_spec(f),
{
    let l0 = rng_range_u64(rng, 0, 16);
    let l1 = rng_range_u64(rng, 0, 16);
    let l2 = rng_u64(rng);
    let size_mb = rng_range_u64(rng, FILE_MIN, FILE_MAX + 1);

    let dir0 = hex4_string(l0);
    let dir1 = hex4_string(l1);
    let mut name = hex16_string(l2);
    proof {
        reveal_strlit(".dat");
    }
    name.append(".dat");
    proof {
        assert(name@.skip(16) =~= dat_extension());
        assert(forall|i: int| 0 <= i < 16 ==> name@[i] == hex16_chars(l2)[i]);
    }
    FileSpec { dir0, dir1, name, size_mb }
}

/// Plan a whole corpus: exactly `SEED_FILE_COUNT` well-formed files.
pub fn corpus_plan(rng: &mut rand_chacha::ChaCha20Rng) -> (files: Vec<FileSpec>)
    ensures
        files@.len() == SEED_FILE_COUNT,
        forall|i: int| 0 <= i < files@.len() ==> wf_file_spec(files@[i]),
{
    let mut files: Vec<FileSpec> = Vec::new();
    let mut k: usize = 0;
    while k < SEED_FILE_COUNT
        invariant
            k <= SEED_FILE_COUNT,
            files@.len() == k,
            forall|i: int| 0 <= i < files@.len() ==> wf_file_spec(files@[i]),
        decreases SEED_FILE_COUNT - k,
    {
        let f = corpus_file_spec(rng);
        files.push(f);
        k = k + 1;
    }
    files
}

/// How many chunks fill a file of `size_mb` megabytes.
pub fn chunk_count(size_mb: u64) -> (r: u64)
    requires
        size_mb <= FILE_MAX,
    ensures
        r == size_mb * CHUNKS_PER_MEGABYTE,
{
    size_mb * CHUNKS_PER_MEGABYTE
}

/// Writing `size_mb * CHUNKS_PER_MEGABYTE` chunks of `CHUNK_SIZE` bytes
/// yields exactly `size_mb` megabytes; for a well-formed corpus file that
/// is between `FILE_MIN` and `FILE_MAX` megabytes of content.
pub proof fn lemma_corpus_file_bytes(size_mb: u64)
    requires
        FILE_MIN <= size_mb <= FILE_MAX,
    ensures
        size_mb * CHUNKS_PER_MEGABYTE * CHUNK_SIZE == size_mb * crate::MEGABYTE,
        FILE_MIN * crate::MEGABYTE <= size_mb * crate::MEGABYTE <= FILE_MAX * crate::MEGABYTE,
{
    assert(size_mb * 64 * 16384 == size_mb * 1048576) by (nonlinear_arith);
    assert(2 * 1048576 <= size_mb * 1048576 <= 32 * 1048576) by (nonlinear_arith)
        requires
            2 <= size_mb <= 32,
    ;
}

/// Draw the content of one chunk: with probability 3/4 random bytes,
/// otherwise one repeated, maximally compressible byte.  The chunk is
/// always exactly `CHUNK_SIZE` bytes.
pub fn corpus_chunk(rng: &mut rand_chacha::ChaCha20Rng) -> (buf: Vec<u8>)
    ensures
        buf@.len() == CHUNK_SIZE,
{
    let random = rng_ratio(rng, 3, 4);
    let mut buf: Vec<u8> = Vec::new();
    fill_block(&mut buf, CHUNK_SIZE, random, rng);
    buf
}

} // verus!
