//! The download job as a state machine: authenticate and resolve the
//! content, purchase when allowed and needed, fetch the package chunk by
//! chunk, merge, sign. The caller performs each action that the machine
//! asks for and feeds back what happened.

use vstd::prelude::*;
use crate::chunks::{
    after_attempt, chunk_count, chunk_range, chunks_total, lemma_total_step, progress_percent,
    failures, spec_after_attempt, spec_chunk_count, spec_chunk_len, spec_percent, ChunkStep,
    CHUNK_SIZE, MAX_RETRIES,
};
use crate::classify::{
    get_license_error_message, is_license_error, is_session_error, spec_is_license_error,
    spec_is_session_error, spec_license_error_message,
};
use crate::remote::{ItemMetadata, SongItem, StoreResponse};
use crate::signature::{artwork_of, sign_error_text, SignError};
use crate::text::join2;

verus! {

/// Where a download job stands.
#[derive(Debug, Clone, Copy, PartialEq, Eq, Structural)]
pub enum JobPhase {
    Auth,
    Purchase,
    Recheck,
    Download,
    Merge,
    Sign,
    Done,
    Failed,
    Cancelled,
}

/// What the caller observed after performing an action.
pub enum TaskEvent {
    /// Reply of the content-resolution call.
    Resolved(StoreResponse),
    /// Reply of the purchase call.
    Purchased(StoreResponse),
    /// Size in bytes of the package to fetch.
    SizeKnown(u64),
    /// One attempt at the current chunk succeeded or failed.
    ChunkFetched(bool),
    /// The chunks were merged into one file, or the merge failed.
    Merged(bool),
    /// Signing finished, or failed for the given reason.
    Signed(Option<SignError>),
    /// The action could not be performed, for the given reason.
    Failed(String),
    /// The job was cancelled.
    Cancel,
}

/// What the machine asks the caller to do next.
#[derive(Debug, Clone, Copy, PartialEq, Eq, Structural)]
pub enum TaskAction {
    /// Call the content-resolution endpoint.
    ResolveContent,
    /// Call the purchase endpoint.
    Purchase,
    /// Find the size of the package at the resolved address.
    FetchSize,
    /// Wait `delay_ms`, then fetch bytes `start..=end` as chunk `index`.
    FetchChunk { index: u64, start: u64, end: u64, delay_ms: u64 },
    /// Concatenate the first `chunks` chunks in order into the package file.
    Merge { chunks: u64 },
    /// Sign the merged package.
    Sign,
    /// Nothing more to do; the job has ended.
    Stop,
}

/// Descriptive fields of a downloaded package, with defaults filled in.
pub struct DownloadMetadata {
    pub bundle_display_name: String,
    pub bundle_short_version_string: String,
    pub bundle_id: String,
    pub artwork_url: String,
    pub artist_name: String,
}

/// How a download job ended, with the flags that tell the caller whether to
/// ask for a new login or for purchase confirmation.
pub struct DownloadResult {
    pub ok: bool,
    pub file: Option<String>,
    pub metadata: Option<DownloadMetadata>,
    pub error: Option<String>,
    pub needs_reauth: bool,
    pub needs_purchase: bool,
}

/// One download job in flight.
pub struct DownloadTask {
    phase: JobPhase,
    auto_purchase: bool,
    song: Option<SongItem>,
    sized: bool,
    file_size: u64,
    chunk: u64,
    attempt: u32,
    downloaded: u64,
    error: Option<String>,
    needs_reauth: bool,
    needs_purchase: bool,
}

/// The abstract state of a job.
pub struct TaskState {
    pub phase: JobPhase,
    pub auto_purchase: bool,
    pub song: Option<SongItem>,
    pub sized: bool,
    pub file_size: u64,
    pub chunk: u64,
    pub attempt: u32,
    pub downloaded: u64,
    pub error: Option<Seq<char>>,
    pub needs_reauth: bool,
    pub needs_purchase: bool,
}

impl View for DownloadTask {
    type V = TaskState;

    closed spec fn view(&self) -> TaskState {
        TaskState {
            phase: self.phase,
            auto_purchase: self.auto_purchase,
            song: self.song,
            sized: self.sized,
            file_size: self.file_size,
            chunk: self.chunk,
            attempt: self.attempt,
            downloaded: self.downloaded,
            error: match self.error {
                Some(e) => Some(e@),
                None => None,
            },
            needs_reauth: self.needs_reauth,
            needs_purchase: self.needs_purchase,
        }
    }
}

pub open spec fn is_terminal(p: JobPhase) -> bool {
    p == JobPhase::Done || p == JobPhase::Failed || p == JobPhase::Cancelled
}

/// Attempts stay within the retry bound, and the bytes counted as written
/// are exactly those of the chunks completed so far.
pub open spec fn task_wf(v: TaskState) -> bool {
    &&& v.attempt < MAX_RETRIES
    &&& v.chunk <= spec_chunk_count(v.file_size as nat, CHUNK_SIZE as nat)
    &&& v.downloaded == chunks_total(v.file_size as nat, CHUNK_SIZE as nat, v.chunk as nat)
    &&& v.phase == JobPhase::Failed ==> v.error is Some
}

/// The reply carries an item with an address and metadata.
pub open spec fn usable_song(s: Option<SongItem>) -> bool {
    s matches Some(x) && x.url is Some && x.metadata is Some
}

pub open spec fn session_expired_text() -> Seq<char> {
    "会话已失效，请重新登录"@
}

pub open spec fn retries_exhausted_text() -> Seq<char> {
    "下载重试次数耗尽"@
}

pub open spec fn merge_failed_text() -> Seq<char> {
    "合并分块失败"@
}

pub open spec fn invalid_song_text() -> Seq<char> {
    "Invalid song list"@
}

pub open spec fn unexpected_event_text() -> Seq<char> {
    "unexpected event"@
}

pub open spec fn cancelled_text() -> Seq<char> {
    "任务已取消"@
}

/// The message of a generic denial: the service's own customer message, or
/// a default.
pub open spec fn denial_text(r: &StoreResponse) -> Seq<char> {
    match r.customer_message {
        Some(m) => m@,
        None => "下载失败"@,
    }
}

pub open spec fn failed(v: TaskState, msg: Seq<char>, reauth: bool, purchase: bool) -> TaskState {
    TaskState {
        phase: JobPhase::Failed,
        error: Some(msg),
        needs_reauth: reauth,
        needs_purchase: purchase,
        ..v
    }
}

pub open spec fn with_phase(v: TaskState, p: JobPhase) -> TaskState {
    TaskState { phase: p, ..v }
}

/// The request for chunk `k` of a package of `n` bytes, after `delay` ms.
pub open spec fn fetch_action(n: u64, k: u64, delay: u64) -> TaskAction {
    TaskAction::FetchChunk {
        index: k,
        start: (k * CHUNK_SIZE) as u64,
        end: (k * CHUNK_SIZE + spec_chunk_len(n as nat, CHUNK_SIZE as nat, k as nat) - 1) as u64,
        delay_ms: delay,
    }
}

/// The transition table of a job.
pub open spec fn spec_step(v: TaskState, ev: TaskEvent) -> (TaskState, TaskAction) {
    let stop = TaskAction::Stop;
    let unexpected = (failed(v, unexpected_event_text(), false, false), stop);
    if is_terminal(v.phase) {
        (v, stop)
    } else {
        match ev {
            TaskEvent::Cancel => (with_phase(v, JobPhase::Cancelled), stop),
            TaskEvent::Failed(m) => (failed(v, m@, false, false), stop),
            TaskEvent::Resolved(r) => if v.phase == JobPhase::Auth || v.phase == JobPhase::Recheck {
                if !r.spec_granted() {
                    if spec_is_session_error(&r) {
                        (failed(v, session_expired_text(), true, false), stop)
                    } else if v.phase == JobPhase::Auth && spec_is_license_error(&r) {
                        if v.auto_purchase {
                            (with_phase(v, JobPhase::Purchase), TaskAction::Purchase)
                        } else {
                            (failed(v, spec_license_error_message(&r), false, true), stop)
                        }
                    } else if v.phase == JobPhase::Recheck {
                        (failed(v, spec_license_error_message(&r), false, true), stop)
                    } else {
                        (failed(v, denial_text(&r), false, false), stop)
                    }
                } else if usable_song(r.song) {
                    (
                        TaskState { phase: JobPhase::Download, song: r.song, sized: false, ..v },
                        TaskAction::FetchSize,
                    )
                } else {
                    (failed(v, invalid_song_text(), false, false), stop)
                }
            } else {
                unexpected
            },
            TaskEvent::Purchased(r) => if v.phase == JobPhase::Purchase {
                if !r.spec_granted() {
                    if spec_is_session_error(&r) {
                        (failed(v, session_expired_text(), true, false), stop)
                    } else {
                        (failed(v, spec_license_error_message(&r), false, true), stop)
                    }
                } else {
                    (with_phase(v, JobPhase::Recheck), TaskAction::ResolveContent)
                }
            } else {
                unexpected
            },
            TaskEvent::SizeKnown(n) => if v.phase == JobPhase::Download && !v.sized {
                let w = TaskState {
                    sized: true,
                    file_size: n,
                    chunk: 0,
                    attempt: 0,
                    downloaded: 0,
                    ..v
                };
                if spec_chunk_count(n as nat, CHUNK_SIZE as nat) == 0 {
                    (with_phase(w, JobPhase::Merge), TaskAction::Merge { chunks: 0 })
                } else {
                    (w, fetch_action(n, 0, 0))
                }
            } else {
                unexpected
            },
            TaskEvent::ChunkFetched(ok) => if v.phase == JobPhase::Download && v.sized && v.chunk
                < spec_chunk_count(v.file_size as nat, CHUNK_SIZE as nat) {
                match spec_after_attempt(v.attempt as nat, ok) {
                    ChunkStep::Written => {
                        let k = (v.chunk + 1) as u64;
                        let w = TaskState {
                            chunk: k,
                            attempt: 0,
                            downloaded: (v.downloaded + spec_chunk_len(
                                v.file_size as nat,
                                CHUNK_SIZE as nat,
                                v.chunk as nat,
                            )) as u64,
                            ..v
                        };
                        if k == spec_chunk_count(v.file_size as nat, CHUNK_SIZE as nat) {
                            (with_phase(w, JobPhase::Merge), TaskAction::Merge { chunks: k })
                        } else {
                            (w, fetch_action(v.file_size, k, 0))
                        }
                    },
                    ChunkStep::Retry { delay_ms } => (
                        TaskState { attempt: (v.attempt + 1) as u32, ..v },
                        fetch_action(v.file_size, v.chunk, delay_ms),
                    ),
                    ChunkStep::GiveUp => (failed(v, retries_exhausted_text(), false, false), stop),
                }
            } else {
                unexpected
            },
            TaskEvent::Merged(ok) => if v.phase == JobPhase::Merge {
                if ok {
                    (with_phase(v, JobPhase::Sign), TaskAction::Sign)
                } else {
                    (failed(v, merge_failed_text(), false, false), stop)
                }
            } else {
                unexpected
            },
            TaskEvent::Signed(e) => if v.phase == JobPhase::Sign {
                match e {
                    None => (with_phase(v, JobPhase::Done), stop),
                    Some(x) => (failed(v, sign_error_text(x), false, false), stop),
                }
            } else {
                unexpected
            },
        }
    }
}

/// A reply that reports an invalid session ends a job that is resolving its
/// content at once, whatever the auto-purchase setting: the job fails with
/// the re-login flag and without the purchase flag.
pub proof fn lemma_session_error_ends_job(v: TaskState, r: StoreResponse)
    requires
        v.phase == JobPhase::Auth || v.phase == JobPhase::Recheck,
        !r.spec_granted(),
        spec_is_session_error(&r),
    ensures
        spec_step(v, TaskEvent::Resolved(r)).0.phase == JobPhase::Failed,
        spec_step(v, TaskEvent::Resolved(r)).0.needs_reauth,
        !spec_step(v, TaskEvent::Resolved(r)).0.needs_purchase,
        spec_step(v, TaskEvent::Resolved(r)).1 == TaskAction::Stop,
{
}

/// The state after feeding the outcomes of successive attempts at chunks.
pub open spec fn after_attempts(v: TaskState, outcomes: Seq<bool>) -> TaskState
    decreases outcomes.len(),
{
    if outcomes.len() == 0 {
        v
    } else {
        after_attempts(spec_step(v, TaskEvent::ChunkFetched(outcomes[0])).0, outcomes.drop_first())
    }
}

/// The state that is fetching a chunk, with the attempts made so far.
pub open spec fn fetching(v: TaskState) -> bool {
    &&& task_wf(v)
    &&& v.phase == JobPhase::Download
    &&& v.sized
    &&& v.chunk < spec_chunk_count(v.file_size as nat, CHUNK_SIZE as nat)
}

proof fn lemma_failed_attempts(v: TaskState, k: nat, tail: Seq<bool>)
    requires
        fetching(v),
        v.attempt + k < MAX_RETRIES,
    ensures
        after_attempts(v, failures(k) + tail) == after_attempts(
            TaskState { attempt: (v.attempt + k) as u32, ..v },
            tail,
        ),
    decreases k,
{
    let s = failures(k) + tail;
    if k == 0 {
        assert(s =~= tail);
        assert(TaskState { attempt: (v.attempt + k) as u32, ..v } == v);
    } else {
        assert(s[0] == false);
        assert(s.drop_first() =~= failures((k - 1) as nat) + tail);
        let w = spec_step(v, TaskEvent::ChunkFetched(false)).0;
        assert(w == TaskState { attempt: (v.attempt + 1) as u32, ..v });
        lemma_failed_attempts(w, (k - 1) as nat, tail);
        assert(TaskState { attempt: (w.attempt + (k - 1)) as u32, ..w } == TaskState {
            attempt: (v.attempt + k) as u32,
            ..v
        });
    }
}

/// Retry bound within a job: from the first attempt at a chunk, fewer than
/// the allowed number of failures followed by a success completes the chunk
/// and moves on; that many failures end the job with the retry error and
/// without the re-login or purchase flags.
pub proof fn lemma_job_retry_bound(v: TaskState, k: nat)
    requires
        fetching(v),
        v.attempt == 0,
    ensures
        k < MAX_RETRIES ==> {
            let w = after_attempts(v, failures(k).push(true));
            &&& w.chunk == v.chunk + 1
            &&& w.phase == JobPhase::Download || w.phase == JobPhase::Merge
            &&& w.downloaded == v.downloaded + spec_chunk_len(
                v.file_size as nat,
                CHUNK_SIZE as nat,
                v.chunk as nat,
            )
        },
        after_attempts(v, failures(MAX_RETRIES as nat)).phase == JobPhase::Failed,
        after_attempts(v, failures(MAX_RETRIES as nat)).error == Some(retries_exhausted_text()),
        !after_attempts(v, failures(MAX_RETRIES as nat)).needs_reauth,
        !after_attempts(v, failures(MAX_RETRIES as nat)).needs_purchase,
{
    if k < MAX_RETRIES {
        assert(failures(k).push(true) =~= failures(k) + seq![true]);
        lemma_failed_attempts(v, k, seq![true]);
        let u = TaskState { attempt: (v.attempt + k) as u32, ..v };
        assert(seq![true][0] == true);
        assert(seq![true].drop_first() =~= Seq::<bool>::empty());
        let w = spec_step(u, TaskEvent::ChunkFetched(true)).0;
        assert(after_attempts(u, seq![true]) == after_attempts(w, Seq::<bool>::empty()));
        assert(after_attempts(w, Seq::<bool>::empty()) == w);
        assert(spec_after_attempt(u.attempt as nat, true) == ChunkStep::Written);
        lemma_total_step(v.file_size as nat, CHUNK_SIZE as nat, v.chunk as nat);
        crate::chunks::lemma_chunk_partition(v.file_size as nat, CHUNK_SIZE as nat);
        let count = spec_chunk_count(v.file_size as nat, CHUNK_SIZE as nat);
        assert(count < 0x1_0000_0000_0000_0000) by (nonlinear_arith)
            requires
                count * 5242880 < v.file_size + 5242880,
                v.file_size < 0x1_0000_0000_0000_0000,
        ;
        assert(w.chunk == v.chunk + 1);
    }
    assert(failures(MAX_RETRIES as nat) =~= failures(4) + seq![false]);
    lemma_failed_attempts(v, 4, seq![false]);
    let u4 = TaskState { attempt: (v.attempt + 4) as u32, ..v };
    assert(seq![false][0] == false);
    assert(seq![false].drop_first() =~= Seq::<bool>::empty());
    let f = spec_step(u4, TaskEvent::ChunkFetched(false)).0;
    assert(spec_after_attempt(u4.attempt as nat, false) == ChunkStep::GiveUp);
    assert(after_attempts(u4, seq![false]) == after_attempts(f, Seq::<bool>::empty()));
    assert(after_attempts(f, Seq::<bool>::empty()) == f);
    assert(f.phase == JobPhase::Failed);
}

/// The metadata of a downloaded package, with defaults for absent fields.
pub open spec fn metadata_defaults(m: ItemMetadata) -> (Seq<char>, Seq<char>, Seq<char>, Seq<char>, Seq<char>) {
    let or = |x: Option<String>, d: Seq<char>|
        match x {
            Some(s) => s@,
            None => d,
        };
    (
        or(m.bundle_display_name, "Unknown"@),
        or(m.bundle_short_version_string, "1.0"@),
        or(m.bundle_id, Seq::<char>::empty()),
        or(artwork_of(m), Seq::<char>::empty()),
        or(m.artist_name, Seq::<char>::empty()),
    )
}

/// The file name of a downloaded package: `<display name>_<version>.ipa`.
pub open spec fn package_file_name(m: ItemMetadata) -> Seq<char> {
    metadata_defaults(m).0 + "_"@ + metadata_defaults(m).1 + ".ipa"@
}

fn text_or(x: &Option<String>, d: &str) -> (r: String)
    ensures
        r@ == match *x {
            Some(s) => s@,
            None => d@,
        },
{
    match x {
        Some(s) => s.clone(),
        None => String::from_str(d),
    }
}

/// The metadata of a downloaded package, with defaults for absent fields.
pub fn download_metadata(m: &ItemMetadata) -> (r: DownloadMetadata)
    ensures
        (
            r.bundle_display_name@,
            r.bundle_short_version_string@,
            r.bundle_id@,
            r.artwork_url@,
            r.artist_name@,
        ) == metadata_defaults(*m),
{
    proof {
        reveal_strlit("");
    }
    let artwork = match &m.artwork_url_60 {
        Some(u) => u.clone(),
        None => match &m.artwork_url_512 {
            Some(u) => u.clone(),
            None => text_or(&m.artwork_url_100, ""),
        },
    };
    DownloadMetadata {
        bundle_display_name: text_or(&m.bundle_display_name, "Unknown"),
        bundle_short_version_string: text_or(&m.bundle_short_version_string, "1.0"),
        bundle_id: text_or(&m.bundle_id, ""),
        artwork_url: artwork,
        artist_name: text_or(&m.artist_name, ""),
    }
}

/// The file name of a downloaded package: `<display name>_<version>.ipa`.
pub fn output_file_name(m: &ItemMetadata) -> (r: String)
    ensures
        r@ == package_file_name(*m),
{
    let name = text_or(&m.bundle_display_name, "Unknown");
    let version = text_or(&m.bundle_short_version_string, "1.0");
    let head = join2(name.as_str(), "_");
    let head = join2(head.as_str(), version.as_str());
    join2(head.as_str(), ".ipa")
}

impl DownloadTask {
    pub open spec fn wf(&self) -> bool {
        task_wf(self@)
    }

    /// A job that has not contacted the service yet.
    pub fn new(auto_purchase: bool) -> (r: DownloadTask)
        ensures
            r.wf(),
            r@.phase == JobPhase::Auth,
            r@.auto_purchase == auto_purchase,
            r@.song is None,
            !r@.sized,
            r@.downloaded == 0,
            r@.error is None,
            !r@.needs_reauth,
            !r@.needs_purchase,
    {
        DownloadTask {
            phase: JobPhase::Auth,
            auto_purchase,
            song: None,
            sized: false,
            file_size: 0,
            chunk: 0,
            attempt: 0,
            downloaded: 0,
            error: None,
            needs_reauth: false,
            needs_purchase: false,
        }
    }

    /// The first action of a job: resolve the content. A job that has moved
    /// on is driven by the actions that `step` returns instead.
    pub fn first_action(&self) -> (a: TaskAction)
        ensures
            self@.phase == JobPhase::Auth ==> a == TaskAction::ResolveContent,
            is_terminal(self@.phase) ==> a == TaskAction::Stop,
    {
        if self.phase == JobPhase::Auth {
            TaskAction::ResolveContent
        } else {
            TaskAction::Stop
        }
    }

    pub fn phase(&self) -> (p: JobPhase)
        ensures
            p == self@.phase,
    {
        self.phase
    }

    /// The item that the service resolved, once it has.
    pub fn song(&self) -> (s: &Option<SongItem>)
        ensures
            *s == self@.song,
    {
        &self.song
    }

    /// Bytes of the package written so far.
    pub fn downloaded(&self) -> (n: u64)
        ensures
            n == self@.downloaded,
    {
        self.downloaded
    }

    /// Whether the package size is known.
    pub fn sized(&self) -> (b: bool)
        ensures
            b == self@.sized,
    {
        self.sized
    }

    /// Size of the package, once known.
    pub fn file_size(&self) -> (n: u64)
        ensures
            n == self@.file_size,
    {
        self.file_size
    }

    /// Progress in whole percent of the package size.
    pub fn progress(&self) -> (p: u32)
        ensures
            p == spec_percent(self@.downloaded as nat, self@.file_size as nat),
    {
        progress_percent(self.downloaded, self.file_size)
    }

    fn fail(&mut self, msg: String, reauth: bool, purchase: bool)
        ensures
            final(self)@ == failed(old(self)@, msg@, reauth, purchase),
    {
        self.phase = JobPhase::Failed;
        self.error = Some(msg);
        self.needs_reauth = reauth;
        self.needs_purchase = purchase;
    }

    fn fetch(&self, delay: u64) -> (a: TaskAction)
        requires
            self.chunk < spec_chunk_count(self.file_size as nat, CHUNK_SIZE as nat),
        ensures
            a == fetch_action(self.file_size, self.chunk, delay),
    {
        let (start, end) = chunk_range(self.file_size, CHUNK_SIZE, self.chunk);
        TaskAction::FetchChunk { index: self.chunk, start, end, delay_ms: delay }
    }

    /// Takes the outcome of the last action and returns the next one.
    pub fn step(&mut self, ev: TaskEvent) -> (a: TaskAction)
        requires
            old(self).wf(),
        ensures
            final(self).wf(),
            (final(self)@, a) == spec_step(old(self)@, ev),
    {
        if self.phase == JobPhase::Done || self.phase == JobPhase::Failed || self.phase
            == JobPhase::Cancelled {
            return TaskAction::Stop;
        }
        match ev {
            TaskEvent::Cancel => {
                self.phase = JobPhase::Cancelled;
                TaskAction::Stop
            },
            TaskEvent::Failed(m) => {
                self.fail(m, false, false);
                TaskAction::Stop
            },
            TaskEvent::Resolved(r) => {
                if self.phase != JobPhase::Auth && self.phase != JobPhase::Recheck {
                    self.fail(String::from_str("unexpected event"), false, false);
                    return TaskAction::Stop;
                }
                if !r.granted() {
                    if is_session_error(&r) {
                        self.fail(String::from_str("会话已失效，请重新登录"), true, false);
                        TaskAction::Stop
                    } else if self.phase == JobPhase::Auth && is_license_error(&r) {
                        if self.auto_purchase {
                            self.phase = JobPhase::Purchase;
                            TaskAction::Purchase
                        } else {
                            self.fail(get_license_error_message(&r), false, true);
                            TaskAction::Stop
                        }
                    } else if self.phase == JobPhase::Recheck {
                        self.fail(get_license_error_message(&r), false, true);
                        TaskAction::Stop
                    } else {
                        let msg = match &r.customer_message {
                            Some(m) => m.clone(),
                            None => String::from_str("下载失败"),
                        };
                        self.fail(msg, false, false);
                        TaskAction::Stop
                    }
                } else {
                    let usable = match &r.song {
                        Some(x) => x.url.is_some() && x.metadata.is_some(),
                        None => false,
                    };
                    if usable {
                        self.phase = JobPhase::Download;
                        self.song = r.song;
                        self.sized = false;
                        TaskAction::FetchSize
                    } else {
                        self.fail(String::from_str("Invalid song list"), false, false);
                        TaskAction::Stop
                    }
                }
            },
            TaskEvent::Purchased(r) => {
                if self.phase != JobPhase::Purchase {
                    self.fail(String::from_str("unexpected event"), false, false);
                    return TaskAction::Stop;
                }
                if !r.granted() {
                    if is_session_error(&r) {
                        self.fail(String::from_str("会话已失效，请重新登录"), true, false);
                    } else {
                        self.fail(get_license_error_message(&r), false, true);
                    }
                    TaskAction::Stop
                } else {
                    self.phase = JobPhase::Recheck;
                    TaskAction::ResolveContent
                }
            },
            TaskEvent::SizeKnown(n) => {
                if self.phase != JobPhase::Download || self.sized {
                    self.fail(String::from_str("unexpected event"), false, false);
                    return TaskAction::Stop;
                }
                self.sized = true;
                self.file_size = n;
                self.chunk = 0;
                self.attempt = 0;
                self.downloaded = 0;
                if chunk_count(n, CHUNK_SIZE) == 0 {
                    self.phase = JobPhase::Merge;
                    TaskAction::Merge { chunks: 0 }
                } else {
                    self.fetch(0)
                }
            },
            TaskEvent::ChunkFetched(ok) => {
                let count = chunk_count(self.file_size, CHUNK_SIZE);
                if self.phase != JobPhase::Download || !self.sized || self.chunk >= count {
                    self.fail(String::from_str("unexpected event"), false, false);
                    return TaskAction::Stop;
                }
                match after_attempt(self.attempt, ok) {
                    ChunkStep::Written => {
                        let len = crate::chunks::chunk_len(self.file_size, CHUNK_SIZE, self.chunk);
                        proof {
                            lemma_total_step(
                                self.file_size as nat,
                                CHUNK_SIZE as nat,
                                self.chunk as nat,
                            );
                        }
                        self.downloaded = self.downloaded + len;
                        self.chunk = self.chunk + 1;
                        self.attempt = 0;
                        if self.chunk == count {
                            self.phase = JobPhase::Merge;
                            TaskAction::Merge { chunks: self.chunk }
                        } else {
                            self.fetch(0)
                        }
                    },
                    ChunkStep::Retry { delay_ms } => {
                        self.attempt = self.attempt + 1;
                        self.fetch(delay_ms)
                    },
                    ChunkStep::GiveUp => {
                        self.fail(String::from_str("下载重试次数耗尽"), false, false);
                        TaskAction::Stop
                    },
                }
            },
            TaskEvent::Merged(ok) => {
                if self.phase != JobPhase::Merge {
                    self.fail(String::from_str("unexpected event"), false, false);
                    return TaskAction::Stop;
                }
                if ok {
                    self.phase = JobPhase::Sign;
                    TaskAction::Sign
                } else {
                    self.fail(String::from_str("合并分块失败"), false, false);
                    TaskAction::Stop
                }
            },
            TaskEvent::Signed(e) => {
                if self.phase != JobPhase::Sign {
                    self.fail(String::from_str("unexpected event"), false, false);
                    return TaskAction::Stop;
                }
                match e {
                    None => {
                        self.phase = JobPhase::Done;
                    },
                    Some(x) => {
                        self.fail(x.message(), false, false);
                    },
                }
                TaskAction::Stop
            },
        }
    }

    /// How the job ended: success with the package's file name and metadata,
    /// or failure with its message and flags.
    pub fn result(&self) -> (r: DownloadResult)
        requires
            self.wf(),
        ensures
            r.ok <==> self@.phase == JobPhase::Done,
            self@.phase == JobPhase::Done && usable_song(self@.song) ==> (r.file matches Some(f)
                && f@ == package_file_name(self@.song->0.metadata->0)),
            self@.phase == JobPhase::Done && usable_song(self@.song) ==> r.metadata is Some,
            self@.phase == JobPhase::Done ==> r.error is None,
            r.ok ==> !r.needs_reauth && !r.needs_purchase,
            self@.phase == JobPhase::Failed ==> {
                &&& r.error matches Some(e) && self@.error == Some(e@)
                &&& r.needs_reauth == self@.needs_reauth
                &&& r.needs_purchase == self@.needs_purchase
            },
            self@.phase == JobPhase::Cancelled ==> (r.error matches Some(e) && e@
                == cancelled_text()),
            self@.phase != JobPhase::Failed ==> !r.needs_reauth && !r.needs_purchase,
    {
        match self.phase {
            JobPhase::Done => {
                let (file, metadata) = match &self.song {
                    Some(s) => match &s.metadata {
                        Some(m) => (Some(output_file_name(m)), Some(download_metadata(m))),
                        None => (None, None),
                    },
                    None => (None, None),
                };
                DownloadResult {
                    ok: true,
                    file,
                    metadata,
                    error: None,
                    needs_reauth: false,
                    needs_purchase: false,
                }
            },
            JobPhase::Failed => DownloadResult {
                ok: false,
                file: None,
                metadata: None,
                error: match &self.error {
                    Some(e) => Some(e.clone()),
                    None => Some(String::new()),
                },
                needs_reauth: self.needs_reauth,
                needs_purchase: self.needs_purchase,
            },
            JobPhase::Cancelled => DownloadResult {
                ok: false,
                file: None,
                metadata: None,
                error: Some(String::from_str("任务已取消")),
                needs_reauth: false,
                needs_purchase: false,
            },
            _ => DownloadResult {
                ok: false,
                file: None,
                metadata: None,
                error: None,
                needs_reauth: false,
                needs_purchase: false,
            },
        }
    }
}

} // verus!
