use upload_engine::chunk::{chunk_range, num_chunks, MIN_CHUNK_SIZE};

const MIB: u64 = 1024 * 1024;

#[test]
fn empty_file_has_no_chunks() {
    assert_eq!(num_chunks(0, MIN_CHUNK_SIZE), 0);
}

#[test]
fn one_byte_is_one_chunk() {
    assert_eq!(num_chunks(1, MIN_CHUNK_SIZE), 1);
}

#[test]
fn twelve_mib_in_five_mib_chunks_is_three() {
    assert_eq!(num_chunks(12 * MIB, 5 * MIB), 3);
}

#[test]
fn exact_multiple_has_no_extra_chunk() {
    assert_eq!(num_chunks(15 * MIB, 5 * MIB), 3);
    assert_eq!(num_chunks(10 * MIB, 5 * MIB), 2);
}

#[test]
fn one_more_byte_adds_a_chunk() {
    assert_eq!(num_chunks(10 * MIB + 1, 5 * MIB), 3);
}

#[test]
fn huge_sizes_do_not_overflow() {
    assert_eq!(num_chunks(u64::MAX, u64::MAX), 1);
    assert_eq!(num_chunks(u64::MAX, 1), u64::MAX);
    let n = num_chunks(u64::MAX, MIN_CHUNK_SIZE);
    assert_eq!(n, u64::MAX / MIN_CHUNK_SIZE + 1);
}

#[test]
fn chunk_ranges_cover_the_file() {
    let size = 12 * MIB;
    let cs = 5 * MIB;
    assert_eq!(chunk_range(size, cs, 1), (0, cs));
    assert_eq!(chunk_range(size, cs, 2), (cs, cs));
    assert_eq!(chunk_range(size, cs, 3), (10 * MIB, 2 * MIB));
}

#[test]
fn last_chunk_of_exact_multiple_is_full() {
    let size = 10 * MIB;
    let cs = 5 * MIB;
    assert_eq!(chunk_range(size, cs, 2), (5 * MIB, cs));
}
