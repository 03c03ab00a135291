//! Chunk arithmetic: how a file of a given size splits into fixed-size
//! parts, and which byte range each 1-based part number covers.

use vstd::prelude::*;

verus! {

/// Smallest chunk size the engine accepts: 5 MiB.
pub const MIN_CHUNK_SIZE: u64 = 5 * 1024 * 1024;

/// Number of parts a file of `file_size` bytes splits into when read in
/// chunks of `chunk_size` bytes: the ceiling of `file_size / chunk_size`.
pub open spec fn spec_num_chunks(file_size: nat, chunk_size: nat) -> nat
    recommends
        chunk_size > 0,
{
    if file_size % chunk_size == 0 {
        file_size / chunk_size
    } else {
        file_size / chunk_size + 1
    }
}

/// Byte offset where the chunk holding 1-based part `part` starts.
pub open spec fn spec_chunk_start(chunk_size: nat, part: nat) -> nat
    recommends
        part >= 1,
{
    ((part - 1) * chunk_size) as nat
}

/// Length in bytes of 1-based part `part`: a full chunk for every part
/// but possibly the last, which holds whatever remains of the file.
pub open spec fn spec_chunk_len(file_size: nat, chunk_size: nat, part: nat) -> nat
    recommends
        chunk_size > 0,
        1 <= part <= spec_num_chunks(file_size, chunk_size),
{
    if file_size - spec_chunk_start(chunk_size, part) >= chunk_size {
        chunk_size
    } else {
        (file_size - spec_chunk_start(chunk_size, part)) as nat
    }
}

/// Total number of parts for a file: `ceil(file_size / chunk_size)`.
pub fn num_chunks(file_size: u64, chunk_size: u64) -> (n: u64)
    requires
        chunk_size >= 1,
    ensures
        n == spec_num_chunks(file_size as nat, chunk_size as nat),
{
    let q = file_size / chunk_size;
    let r = file_size % chunk_size;
    if r == 0 {
        q
    } else {
        assert((file_size as nat) / (chunk_size as nat) < file_size as nat) by (nonlinear_arith)
            requires
                chunk_size >= 1,
                file_size as nat % chunk_size as nat != 0,
        ;
        q + 1
    }
}

/// Every chunk of a non-empty file covers at least one byte, and the file
/// is covered exactly: parts `1..=n` end at `file_size`.
pub proof fn lemma_chunks_cover_file(file_size: nat, chunk_size: nat)
    requires
        chunk_size > 0,
        file_size > 0,
    ensures
        spec_num_chunks(file_size, chunk_size) >= 1,
        (spec_num_chunks(file_size, chunk_size) - 1) * chunk_size < file_size,
        spec_num_chunks(file_size, chunk_size) * chunk_size >= file_size,
{
    let n = spec_num_chunks(file_size, chunk_size);
    assert(n >= 1 && (n - 1) * chunk_size < file_size && n * chunk_size >= file_size)
        by (nonlinear_arith)
        requires
            chunk_size > 0,
            file_size > 0,
            n == spec_num_chunks(file_size, chunk_size),
    ;
}

/// The byte range of part `part`: its start offset and its length.
/// Parts before the last are exactly `chunk_size` bytes; the last part
/// holds the remainder of the file.
pub fn chunk_range(file_size: u64, chunk_size: u64, part: u64) -> (r: (u64, u64))
    requires
        chunk_size >= 1,
        file_size >= 1,
        1 <= part <= spec_num_chunks(file_size as nat, chunk_size as nat),
    ensures
        r.0 == spec_chunk_start(chunk_size as nat, part as nat),
        r.1 == spec_chunk_len(file_size as nat, chunk_size as nat, part as nat),
        r.1 >= 1,
        r.0 + r.1 <= file_size,
{
    proof {
        lemma_chunks_cover_file(file_size as nat, chunk_size as nat);
        let n = spec_num_chunks(file_size as nat, chunk_size as nat);
        assert((part - 1) * chunk_size <= (n - 1) * chunk_size) by (nonlinear_arith)
            requires
                1 <= part <= n,
                chunk_size >= 1,
        ;
    }
    let start = (part - 1) * chunk_size;
    let remaining = file_size - start;
    if remaining >= chunk_size {
        (start, chunk_size)
    } else {
        (start, remaining)
    }
}

} // verus!
