use rand::SeedableRng;
use rand_chacha::ChaCha20Rng;
use zstress::CHUNK_SIZE;
use zstress::ChurnError;
use zstress::ChurnOp;
use zstress::FILE_MAX;
use zstress::FILE_MIN;
use zstress::KILOBYTE;
use zstress::SEED_FILE_COUNT;
use zstress::chunk_count;
use zstress::churn_iops;
use zstress::churn_offset;
use zstress::churn_op;
use zstress::corpus_chunk;
use zstress::corpus_file_spec;
use zstress::corpus_plan;
use zstress::fill_block;
use zstress::sweep_order;

fn rng(seed: u64) -> ChaCha20Rng {
    ChaCha20Rng::seed_from_u64(seed)
}

fn is_hex(s: &str) -> bool {
    s.chars().all(|c| c.is_ascii_digit() || ('A'..='F').contains(&c))
}

#[test]
fn corpus_has_exactly_one_thousand_files() {
    let mut r = rng(7);
    let files = corpus_plan(&mut r);
    assert_eq!(files.len(), SEED_FILE_COUNT);
    assert_eq!(files.len(), 1000);
}

#[test]
fn corpus_files_are_well_shaped() {
    let mut r = rng(11);
    for _ in 0..200 {
        let f = corpus_file_spec(&mut r);
        assert_eq!(f.dir0.len(), 4);
        assert_eq!(f.dir1.len(), 4);
        assert!(is_hex(&f.dir0));
        assert!(is_hex(&f.dir1));
        assert_eq!(f.name.len(), 20);
        assert!(f.name.ends_with(".dat"));
        assert!(is_hex(&f.name[..16]));
        assert!(FILE_MIN <= f.size_mb && f.size_mb <= FILE_MAX);
    }
}

#[test]
fn corpus_file_sizes_span_whole_megabytes() {
    assert_eq!(chunk_count(2), 128);
    assert_eq!(chunk_count(32), 2048);
    assert_eq!(chunk_count(2) as usize * CHUNK_SIZE, 2 * 1024 * 1024);
    assert_eq!(chunk_count(32) as usize * CHUNK_SIZE, 32 * 1024 * 1024);
}

#[test]
fn chunks_are_sixteen_kilobytes() {
    let mut r = rng(13);
    for _ in 0..8 {
        let chunk = corpus_chunk(&mut r);
        assert_eq!(chunk.len(), CHUNK_SIZE);
    }
}

#[test]
fn compressible_blocks_repeat_one_byte() {
    let mut r = rng(17);
    let mut buf = Vec::new();
    fill_block(&mut buf, 1024, false, &mut r);
    assert_eq!(buf.len(), 1024);
    assert!(buf.iter().all(|&b| b == b'A'));
    fill_block(&mut buf, 1024, true, &mut r);
    assert_eq!(buf.len(), 1024);
}

#[test]
fn churn_offsets_stay_clear_of_the_final_block() {
    let mut r = rng(19);
    let size: u64 = 10 * KILOBYTE + 512;
    for _ in 0..500 {
        let offset = churn_offset(size, &mut r).unwrap();
        assert_eq!(offset % 1024, 0);
        assert!(offset + 1024 < size);
    }
}

#[test]
fn churn_rejects_files_without_room() {
    let mut r = rng(23);
    assert_eq!(churn_offset(0, &mut r), Err(ChurnError::FileTooSmall));
    assert_eq!(churn_offset(1023, &mut r), Err(ChurnError::FileTooSmall));
    assert_eq!(churn_offset(2047, &mut r), Err(ChurnError::FileTooSmall));
    assert_eq!(churn_offset(2048, &mut r), Ok(0));
}

#[test]
fn churn_iops_lie_in_the_documented_range() {
    let mut r = rng(29);
    for _ in 0..500 {
        let iops = churn_iops(&mut r);
        assert!((1..10000).contains(&iops));
    }
}

#[test]
fn churn_writes_carry_one_kilobyte() {
    let mut r = rng(31);
    let size: u64 = 4 * KILOBYTE;
    let mut saw_write = false;
    let mut saw_read = false;
    for _ in 0..200 {
        match churn_op(size, &mut r).unwrap() {
            ChurnOp::Write { offset, data } => {
                saw_write = true;
                assert_eq!(data.len(), 1024);
                assert_eq!(offset % 1024, 0);
                assert!(offset + 1024 < size);
            }
            ChurnOp::Read { offset } => {
                saw_read = true;
                assert_eq!(offset % 1024, 0);
                assert!(offset + 1024 < size);
            }
        }
    }
    assert!(saw_write && saw_read);
}

#[test]
fn sweep_visits_each_file_exactly_once() {
    let mut r = rng(37);
    for &n in &[0usize, 1, 2, 10, 100, 1000] {
        let mut order = sweep_order(n, &mut r);
        assert_eq!(order.len(), n);
        order.sort_unstable();
        let identity: Vec<usize> = (0..n).collect();
        assert_eq!(order, identity);
    }
}

#[test]
fn sweeps_cover_every_permutation() {
    // Over many sweeps of three files, every one of the six orders shows
    // up: the shuffle draws from the whole permutation space, not from a
    // fixed or degenerate corner of it.
    let mut r = rng(43);
    let mut seen = std::collections::HashSet::new();
    for _ in 0..3000 {
        seen.insert(sweep_order(3, &mut r));
    }
    assert_eq!(seen.len(), 6);
}

#[test]
fn sweeps_differ_between_draws() {
    let mut r = rng(41);
    let first = sweep_order(100, &mut r);
    let second = sweep_order(100, &mut r);
    assert_ne!(first, second);
    let identity: Vec<usize> = (0..100).collect();
    assert_ne!(first, identity);
}
