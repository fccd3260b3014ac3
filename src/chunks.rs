//! Partition of a download into byte ranges, the per-chunk retry policy,
//! and progress accounting.

use vstd::prelude::*;
use vstd::arithmetic::div_mod::lemma_fundamental_div_mod_converse;
use crate::codec::{dec_numeral, dec_u64};
use crate::text::{join2, join3};

verus! {

/// Size of every chunk but the last, in bytes.
pub const CHUNK_SIZE: u64 = 5 * 1024 * 1024;

/// Attempts made at one chunk before the download is abandoned.
pub const MAX_RETRIES: u32 = 5;

/// Unit of the linearly growing delay between attempts, in milliseconds.
pub const RETRY_DELAY_MS: u64 = 3000;

/// Number of chunks of size `c` that cover `n` bytes: `n / c` rounded up.
pub open spec fn spec_chunk_count(n: nat, c: nat) -> nat
    recommends
        c > 0,
{
    n / c + if n % c == 0 { 0nat } else { 1nat }
}

/// Length of chunk `i` of a resource of `n` bytes cut in chunks of `c` bytes.
pub open spec fn spec_chunk_len(n: nat, c: nat, i: nat) -> nat {
    if (i + 1) * c <= n {
        c
    } else {
        (n - i * c) as nat
    }
}

/// Total length of the first `k` chunks.
pub open spec fn chunks_total(n: nat, c: nat, k: nat) -> nat
    decreases k,
{
    if k == 0 {
        0
    } else {
        chunks_total(n, c, (k - 1) as nat) + spec_chunk_len(n, c, (k - 1) as nat)
    }
}

/// What the policy does after an attempt at a chunk.
#[derive(Debug, Clone, Copy, PartialEq, Eq, Structural)]
pub enum ChunkStep {
    /// The chunk was written; move on.
    Written,
    /// Try the chunk again after the delay.
    Retry { delay_ms: u64 },
    /// Abandon the whole download.
    GiveUp,
}

/// The policy after attempt number `attempt` (from zero) ended in `ok`.
pub open spec fn spec_after_attempt(attempt: nat, ok: bool) -> ChunkStep {
    if ok {
        ChunkStep::Written
    } else if attempt + 1 < MAX_RETRIES {
        ChunkStep::Retry { delay_ms: (RETRY_DELAY_MS * (attempt + 1)) as u64 }
    } else {
        ChunkStep::GiveUp
    }
}

/// Whether a chunk whose successive attempts end as `outcomes`, starting at
/// attempt `attempt`, is written (`Some(true)`) or abandoned (`Some(false)`);
/// `None` when the outcomes run out first.
pub open spec fn chunk_fate(outcomes: Seq<bool>, attempt: nat) -> Option<bool>
    decreases outcomes.len(),
{
    if outcomes.len() == 0 {
        None
    } else {
        match spec_after_attempt(attempt, outcomes[0]) {
            ChunkStep::Written => Some(true),
            ChunkStep::GiveUp => Some(false),
            ChunkStep::Retry { .. } => chunk_fate(outcomes.drop_first(), attempt + 1),
        }
    }
}

/// `k` failed attempts.
pub open spec fn failures(k: nat) -> Seq<bool> {
    Seq::new(k, |i: int| false)
}

proof fn lemma_count_bounds(n: nat, c: nat)
    requires
        c > 0,
    ensures
        spec_chunk_count(n, c) * c >= n,
        spec_chunk_count(n, c) * c < n + c,
        spec_chunk_count(n, c) > 0 ==> (spec_chunk_count(n, c) - 1) * c < n,
        spec_chunk_count(n, c) == 0 ==> n == 0,
{
    let q = n / c;
    let r = n % c;
    assert(n == q * c + r) by (nonlinear_arith)
        requires
            c > 0,
            q == n / c,
            r == n % c,
    ;
    assert(r < c);
    if r == 0 {
        assert(q * c >= n);
        if q > 0 {
            assert((q - 1) * c == q * c - c) by (nonlinear_arith);
        }
    } else {
        assert((q + 1) * c == q * c + c) by (nonlinear_arith);
    }
}

/// The number of chunks is `(n + c - 1) / c`.
pub proof fn lemma_count_closed_form(n: nat, c: nat)
    requires
        c > 0,
    ensures
        spec_chunk_count(n, c) == (n + c - 1) / (c as int),
{
    let q = n / c;
    let r = n % c;
    assert(n == q * c + r) by (nonlinear_arith)
        requires
            c > 0,
            q == n / c,
            r == n % c,
    ;
    if r == 0 {
        lemma_fundamental_div_mod_converse(n + c - 1, c as int, q as int, c - 1);
    } else {
        assert((q + 1) * c == q * c + c) by (nonlinear_arith);
        lemma_fundamental_div_mod_converse(n + c - 1, c as int, (q + 1) as int, r - 1);
    }
}

proof fn lemma_total_prefix(n: nat, c: nat, k: nat)
    requires
        c > 0,
        k * c <= n,
    ensures
        chunks_total(n, c, k) == k * c,
    decreases k,
{
    if k > 0 {
        let j = (k - 1) as nat;
        assert(j * c == k * c - c) by (nonlinear_arith)
            requires
                j == k - 1,
        ;
        assert((j + 1) * c == k * c);
        assert(spec_chunk_len(n, c, j) == c);
        lemma_total_prefix(n, c, j);
        assert(chunks_total(n, c, k) == chunks_total(n, c, j) + spec_chunk_len(n, c, j));
        assert(chunks_total(n, c, j) == j * c);
        assert(chunks_total(n, c, k) == j * c + c);
        assert(chunks_total(n, c, k) == k * c);
    } else {
        assert(k * c == 0) by (nonlinear_arith)
            requires
                k == 0,
        ;
    }
}

/// Chunk partition: the chunks are `n / c` rounded up in number, their
/// lengths add up to exactly `n`, each is at most `c` long, and the last one
/// is `n mod c` long, or `c` when `c` divides `n`.
pub proof fn lemma_chunk_partition(n: nat, c: nat)
    requires
        c > 0,
    ensures
        spec_chunk_count(n, c) == (n + c - 1) / (c as int),
        spec_chunk_count(n, c) * c >= n,
        spec_chunk_count(n, c) * c < n + c,
        chunks_total(n, c, spec_chunk_count(n, c)) == n,
        forall|i: nat| i < spec_chunk_count(n, c) ==> 0 < #[trigger] spec_chunk_len(n, c, i) <= c,
        spec_chunk_count(n, c) > 0 ==> spec_chunk_len(n, c, (spec_chunk_count(n, c) - 1) as nat)
            == if n % c == 0 { c } else { n % c },
{
    let k = spec_chunk_count(n, c);
    lemma_count_bounds(n, c);
    lemma_count_closed_form(n, c);
    if k == 0 {
        assert(n == 0);
    } else {
        let last = (k - 1) as nat;
        assert((last + 1) * c == k * c);
        assert(last * c < n);
        lemma_total_prefix(n, c, last);
        assert(chunks_total(n, c, k) == chunks_total(n, c, last) + spec_chunk_len(n, c, last));
        assert((last + 1) * c == last * c + c) by (nonlinear_arith);
        assert(chunks_total(n, c, k) == n);
        let q = n / c;
        let r = n % c;
        assert(n == q * c + r) by (nonlinear_arith)
            requires
                c > 0,
                q == n / c,
                r == n % c,
        ;
        if r == 0 {
            assert(last == q - 1);
            assert(last * c == q * c - c) by (nonlinear_arith)
                requires
                    last == q - 1,
            ;
            assert(spec_chunk_len(n, c, last) == c);
        } else {
            assert(last == q);
            assert((q + 1) * c == q * c + c) by (nonlinear_arith);
            assert(spec_chunk_len(n, c, last) == r);
        }
    }
    assert forall|i: nat| i < k implies 0 < #[trigger] spec_chunk_len(n, c, i) <= c by {
        assert(i * c <= (k - 1) * c) by (nonlinear_arith)
            requires
                i < k,
                c > 0,
        ;
        assert((i + 1) * c == i * c + c) by (nonlinear_arith);
    }
}

/// The bytes written once chunk `k` is done never exceed the resource size.
pub proof fn lemma_total_step(n: nat, c: nat, k: nat)
    requires
        c > 0,
        k < spec_chunk_count(n, c),
    ensures
        chunks_total(n, c, k + 1) <= n,
        chunks_total(n, c, k + 1) == chunks_total(n, c, k) + spec_chunk_len(n, c, k),
{
    let count = spec_chunk_count(n, c);
    lemma_chunk_partition(n, c);
    lemma_count_bounds(n, c);
    if (k + 1) * c <= n {
        lemma_total_prefix(n, c, k + 1);
    } else {
        if k + 1 < count {
            assert((k + 1) * c <= (count - 1) * c) by (nonlinear_arith)
                requires
                    k + 1 <= count - 1,
                    c > 0,
            ;
        }
        assert(k + 1 == count);
    }
}

/// Retry bound: a chunk that fails fewer than the allowed number of times and
/// then succeeds is written; one that fails that many times is abandoned,
/// whatever would have followed.
pub proof fn lemma_retry_bound(k: nat, rest: Seq<bool>)
    ensures
        k < MAX_RETRIES ==> chunk_fate(failures(k).push(true), 0) == Some(true),
        chunk_fate(failures(MAX_RETRIES as nat) + rest, 0) == Some(false),
{
    if k < MAX_RETRIES {
        lemma_fate_after_failures(k, MAX_RETRIES as nat, seq![true], 0);
    }
    lemma_fate_after_failures(MAX_RETRIES as nat, MAX_RETRIES as nat, rest, 0);
    assert(failures(k).push(true) =~= failures(k) + seq![true]);
}

proof fn lemma_fate_after_failures(k: nat, m: nat, tail: Seq<bool>, attempt: nat)
    requires
        m == MAX_RETRIES,
        attempt + k <= m,
    ensures
        attempt + k < m && tail.len() > 0 && tail[0] ==> chunk_fate(failures(k) + tail, attempt)
            == Some(true),
        attempt + k == m && k > 0 ==> chunk_fate(failures(k) + tail, attempt) == Some(false),
    decreases k,
{
    let s = failures(k) + tail;
    if k == 0 {
        assert(s =~= tail);
    } else {
        assert(s[0] == false);
        assert(s.drop_first() =~= failures((k - 1) as nat) + tail);
        lemma_fate_after_failures((k - 1) as nat, m, tail, attempt + 1);
    }
}

/// Number of chunks of size `chunk_size` that cover `file_size` bytes.
pub fn chunk_count(file_size: u64, chunk_size: u64) -> (r: u64)
    requires
        chunk_size > 0,
    ensures
        r == spec_chunk_count(file_size as nat, chunk_size as nat),
        r == (file_size + chunk_size - 1) / (chunk_size as int),
{
    proof {
        lemma_count_closed_form(file_size as nat, chunk_size as nat);
    }
    let q = file_size / chunk_size;
    if file_size % chunk_size == 0 {
        q
    } else {
        proof {
            let r = file_size % chunk_size;
            assert(file_size == q * chunk_size + r) by (nonlinear_arith)
                requires
                    chunk_size > 0,
                    q == file_size / chunk_size,
                    r == file_size % chunk_size,
            ;
            assert(chunk_size >= 2);
            assert(q * 2 <= q * chunk_size) by (nonlinear_arith)
                requires
                    chunk_size >= 2,
            ;
        }
        q + 1
    }
}

/// The inclusive byte range `(start, end)` of chunk `index`, as sent in a
/// range request.
pub fn chunk_range(file_size: u64, chunk_size: u64, index: u64) -> (r: (u64, u64))
    requires
        chunk_size > 0,
        index < spec_chunk_count(file_size as nat, chunk_size as nat),
    ensures
        r.0 <= r.1 < file_size,
        r.0 == index * chunk_size,
        r.1 + 1 == if (index + 1) * chunk_size <= file_size {
            (index + 1) * chunk_size
        } else {
            file_size as int
        },
        r.1 - r.0 + 1 == spec_chunk_len(file_size as nat, chunk_size as nat, index as nat),
{
    proof {
        lemma_chunk_partition(file_size as nat, chunk_size as nat);
        lemma_count_bounds(file_size as nat, chunk_size as nat);
        assert(index * chunk_size <= (spec_chunk_count(file_size as nat, chunk_size as nat) - 1)
            * chunk_size) by (nonlinear_arith)
            requires
                index < spec_chunk_count(file_size as nat, chunk_size as nat),
                chunk_size > 0,
        ;
        assert(spec_chunk_len(file_size as nat, chunk_size as nat, index as nat) > 0);
        assert((index + 1) * chunk_size == index * chunk_size + chunk_size) by (nonlinear_arith);
    }
    let start = index * chunk_size;
    let rest = file_size - start;
    let end = if rest > chunk_size { start + chunk_size - 1 } else { file_size - 1 };
    (start, end)
}

/// Length in bytes of chunk `index`.
pub fn chunk_len(file_size: u64, chunk_size: u64, index: u64) -> (r: u64)
    requires
        chunk_size > 0,
        index < spec_chunk_count(file_size as nat, chunk_size as nat),
    ensures
        r == spec_chunk_len(file_size as nat, chunk_size as nat, index as nat),
{
    let (start, end) = chunk_range(file_size, chunk_size, index);
    end - start + 1
}

/// The byte ranges of all chunks, in order.
pub fn plan_chunks(file_size: u64, chunk_size: u64) -> (r: Vec<(u64, u64)>)
    requires
        chunk_size > 0,
    ensures
        r@.len() == spec_chunk_count(file_size as nat, chunk_size as nat),
        forall|i: int|
            0 <= i < r@.len() ==> (#[trigger] r@[i]).0 == i * chunk_size && r@[i].1 - r@[i].0 + 1
                == spec_chunk_len(file_size as nat, chunk_size as nat, i as nat),
{
    let n = chunk_count(file_size, chunk_size);
    let mut v: Vec<(u64, u64)> = Vec::new();
    let mut i: u64 = 0;
    while i < n
        invariant
            chunk_size > 0,
            n == spec_chunk_count(file_size as nat, chunk_size as nat),
            i <= n,
            v@.len() == i,
            forall|j: int|
                0 <= j < v@.len() ==> (#[trigger] v@[j]).0 == j * chunk_size && v@[j].1 - v@[j].0
                    + 1 == spec_chunk_len(file_size as nat, chunk_size as nat, j as nat),
        decreases n - i,
    {
        let range = chunk_range(file_size, chunk_size, i);
        v.push(range);
        i = i + 1;
    }
    v
}

/// The policy after attempt number `attempt` (from zero) ended in `ok`:
/// a failed attempt is retried after `attempt + 1` delay units until the
/// attempts are used up.
pub fn after_attempt(attempt: u32, ok: bool) -> (r: ChunkStep)
    requires
        attempt < MAX_RETRIES,
    ensures
        r == spec_after_attempt(attempt as nat, ok),
{
    if ok {
        ChunkStep::Written
    } else if attempt + 1 < MAX_RETRIES {
        ChunkStep::Retry { delay_ms: RETRY_DELAY_MS * (attempt as u64 + 1) }
    } else {
        ChunkStep::GiveUp
    }
}

/// Whole percent of `total` that `done` bytes make, capped at one hundred; an
/// empty resource counts as complete.
pub open spec fn spec_percent(done: nat, total: nat) -> nat {
    if total == 0 {
        100
    } else if done * 100 / total > 100 {
        100
    } else {
        done * 100 / total
    }
}

/// Progress in whole percent, as reported after each chunk.
pub fn progress_percent(done: u64, total: u64) -> (r: u32)
    ensures
        r == spec_percent(done as nat, total as nat),
        r <= 100,
{
    if total == 0 {
        return 100;
    }
    let p: u128 = (done as u128) * 100 / (total as u128);
    if p > 100 {
        100
    } else {
        p as u32
    }
}

/// The `Range` header value for bytes `start` to `end` inclusive, or from
/// `start` to the end of the resource.
pub open spec fn spec_range_header(start: u64, end: Option<u64>) -> Seq<char> {
    "bytes="@ + dec_numeral(start as nat) + "-"@ + match end {
        Some(e) => dec_numeral(e as nat),
        None => Seq::<char>::empty(),
    }
}

/// The `Range` header value of a range request.
pub fn range_header(start: u64, end: Option<u64>) -> (r: String)
    ensures
        r@ == spec_range_header(start, end),
{
    let s = dec_u64(start);
    let head = join3("bytes=", s.as_str(), "-");
    match end {
        Some(e) => {
            let t = dec_u64(e);
            join2(head.as_str(), t.as_str())
        },
        None => {
            proof {
                assert(head@ + Seq::<char>::empty() =~= head@);
            }
            head
        },
    }
}

} // verus!
