use ipa_webtool::chunks::range_header;
use ipa_webtool::chunks::{
    after_attempt, chunk_count, chunk_len, chunk_range, plan_chunks, progress_percent, ChunkStep,
    CHUNK_SIZE, MAX_RETRIES, RETRY_DELAY_MS,
};

#[test]
fn count_is_ceiling() {
    assert_eq!(chunk_count(10, 3), 4);
    assert_eq!(chunk_count(9, 3), 3);
    assert_eq!(chunk_count(0, 3), 0);
    assert_eq!(chunk_count(1, 3), 1);
    assert_eq!(chunk_count(u64::MAX, 1), u64::MAX);
    assert_eq!(chunk_count(u64::MAX, 2), u64::MAX / 2 + 1);
}

#[test]
fn last_chunk_is_remainder_or_full() {
    assert_eq!(chunk_len(10, 3, 3), 1);
    assert_eq!(chunk_len(9, 3, 2), 3);
    assert_eq!(chunk_len(10, 3, 0), 3);
}

#[test]
fn lengths_sum_to_size() {
    for (n, c) in [(10u64, 3u64), (9, 3), (1, 5), (17, 4), (100, 100), (101, 100)] {
        let plan = plan_chunks(n, c);
        assert_eq!(plan.len() as u64, chunk_count(n, c));
        let total: u64 = plan.iter().map(|(s, e)| e - s + 1).sum();
        assert_eq!(total, n);
        for (i, (s, _)) in plan.iter().enumerate() {
            assert_eq!(*s, i as u64 * c);
        }
    }
}

#[test]
fn ranges_of_a_twelve_megabyte_package() {
    let size = 12 * 1024 * 1024;
    assert_eq!(chunk_count(size, CHUNK_SIZE), 3);
    assert_eq!(chunk_range(size, CHUNK_SIZE, 0), (0, CHUNK_SIZE - 1));
    assert_eq!(chunk_range(size, CHUNK_SIZE, 1), (CHUNK_SIZE, 2 * CHUNK_SIZE - 1));
    assert_eq!(chunk_range(size, CHUNK_SIZE, 2), (2 * CHUNK_SIZE, size - 1));
}

#[test]
fn retry_delays_grow_linearly() {
    assert_eq!(MAX_RETRIES, 5);
    assert_eq!(after_attempt(0, false), ChunkStep::Retry { delay_ms: RETRY_DELAY_MS });
    assert_eq!(after_attempt(1, false), ChunkStep::Retry { delay_ms: 6000 });
    assert_eq!(after_attempt(3, false), ChunkStep::Retry { delay_ms: 12000 });
    assert_eq!(after_attempt(4, false), ChunkStep::GiveUp);
    assert_eq!(after_attempt(4, true), ChunkStep::Written);
    assert_eq!(after_attempt(0, true), ChunkStep::Written);
}

#[test]
fn percent_of_progress() {
    assert_eq!(progress_percent(50, 200), 25);
    assert_eq!(progress_percent(199, 200), 99);
    assert_eq!(progress_percent(200, 200), 100);
    assert_eq!(progress_percent(300, 200), 100);
    assert_eq!(progress_percent(0, 0), 100);
    assert_eq!(progress_percent(u64::MAX, u64::MAX), 100);
}

#[test]
fn range_headers() {
    assert_eq!(range_header(0, Some(5242879)), "bytes=0-5242879");
    assert_eq!(range_header(10, None), "bytes=10-");
    assert_eq!(range_header(u64::MAX, Some(u64::MAX)), format!("bytes={}-{}", u64::MAX, u64::MAX));
}
