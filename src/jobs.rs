//! The job record that callers poll: a status that only moves forward, a
//! percentage, and a log line per transition.

use vstd::prelude::*;
use crate::chunks::spec_percent;
use crate::codec::{dec_numeral, dec_u64};
use crate::orchestrator::{spec_step, DownloadTask, JobPhase, TaskEvent, TaskState};
use crate::text::join3;

verus! {

#[derive(Debug, Clone, Copy, PartialEq, Eq, Structural)]
pub enum JobStatus {
    Pending,
    Downloading,
    Merging,
    Signing,
    Done,
    Error,
    Cancelled,
}

/// Position of a status in the job's progression; the terminal statuses
/// come last.
pub open spec fn status_rank(s: JobStatus) -> int {
    match s {
        JobStatus::Pending => 0,
        JobStatus::Downloading => 1,
        JobStatus::Merging => 2,
        JobStatus::Signing => 3,
        JobStatus::Done => 4,
        JobStatus::Error => 4,
        JobStatus::Cancelled => 4,
    }
}

pub open spec fn status_terminal(s: JobStatus) -> bool {
    s == JobStatus::Done || s == JobStatus::Error || s == JobStatus::Cancelled
}

/// A job may move from `from` to `to`: never out of a terminal status, and
/// never backwards.
pub open spec fn may_move(from: JobStatus, to: JobStatus) -> bool {
    !status_terminal(from) && status_rank(from) <= status_rank(to)
}

/// The status that a job shows while its machine is in `p`.
pub open spec fn spec_status_of(p: JobPhase) -> JobStatus {
    match p {
        JobPhase::Auth => JobStatus::Pending,
        JobPhase::Purchase => JobStatus::Pending,
        JobPhase::Recheck => JobStatus::Pending,
        JobPhase::Download => JobStatus::Downloading,
        JobPhase::Merge => JobStatus::Merging,
        JobPhase::Sign => JobStatus::Signing,
        JobPhase::Done => JobStatus::Done,
        JobPhase::Failed => JobStatus::Error,
        JobPhase::Cancelled => JobStatus::Cancelled,
    }
}

#[verifier::when_used_as_spec(spec_status_of)]
pub fn status_of(p: JobPhase) -> (s: JobStatus)
    ensures
        s == spec_status_of(p),
{
    match p {
        JobPhase::Auth => JobStatus::Pending,
        JobPhase::Purchase => JobStatus::Pending,
        JobPhase::Recheck => JobStatus::Pending,
        JobPhase::Download => JobStatus::Downloading,
        JobPhase::Merge => JobStatus::Merging,
        JobPhase::Sign => JobStatus::Signing,
        JobPhase::Done => JobStatus::Done,
        JobPhase::Failed => JobStatus::Error,
        JobPhase::Cancelled => JobStatus::Cancelled,
    }
}

/// Every step of the download machine either keeps the job's status or
/// moves it forward; a terminal status never changes.
pub proof fn lemma_step_moves_forward(v: TaskState, ev: TaskEvent)
    ensures
        spec_status_of(spec_step(v, ev).0.phase) == spec_status_of(v.phase) || may_move(
            spec_status_of(v.phase),
            spec_status_of(spec_step(v, ev).0.phase),
        ),
{
}

/// The log line of a cancellation.
pub open spec fn cancelled_line() -> Seq<char> {
    "任务已取消"@
}

/// The log line of a successful end.
pub open spec fn finished_line() -> Seq<char> {
    "下载完成"@
}

/// A short name for each phase of the download machine.
pub open spec fn phase_name(p: JobPhase) -> Seq<char> {
    match p {
        JobPhase::Auth => "auth"@,
        JobPhase::Purchase => "purchase"@,
        JobPhase::Recheck => "recheck"@,
        JobPhase::Download => "download"@,
        JobPhase::Merge => "merge"@,
        JobPhase::Sign => "sign"@,
        JobPhase::Done => "done"@,
        JobPhase::Failed => "error"@,
        JobPhase::Cancelled => "cancelled"@,
    }
}

fn phase_text(p: JobPhase) -> (r: &'static str)
    ensures
        r@ == phase_name(p),
{
    match p {
        JobPhase::Auth => "auth",
        JobPhase::Purchase => "purchase",
        JobPhase::Recheck => "recheck",
        JobPhase::Download => "download",
        JobPhase::Merge => "merge",
        JobPhase::Sign => "sign",
        JobPhase::Done => "done",
        JobPhase::Failed => "error",
        JobPhase::Cancelled => "cancelled",
    }
}

/// The progress event for a job in state `v`: the phase, a message naming
/// the phase and, once the package size is known, the bytes written out of
/// it, and the percentage and byte counts.
pub open spec fn progress_of(v: TaskState) -> (Seq<char>, Seq<char>, Option<u32>, Option<u64>, Option<u64>) {
    let head = "["@ + phase_name(v.phase) + "]"@;
    if v.sized {
        (
            phase_name(v.phase),
            head + " "@ + dec_numeral(v.downloaded as nat) + "/"@ + dec_numeral(v.file_size as nat),
            Some(spec_percent(v.downloaded as nat, v.file_size as nat) as u32),
            Some(v.file_size),
            Some(v.downloaded),
        )
    } else {
        (phase_name(v.phase), head, None, None, None)
    }
}

/// The progress event for the current state of a job.
pub fn progress_report(task: &DownloadTask) -> (r: DownloadProgress)
    ensures
        (r.phase@, r.message@, r.progress, r.file_size, r.downloaded) == progress_of(task@),
{
    let name = phase_text(task.phase());
    let head = join3("[", name, "]");
    if task.sized() {
        let done = dec_u64(task.downloaded());
        let size = dec_u64(task.file_size());
        let counts = join3(done.as_str(), "/", size.as_str());
        let message = join3(head.as_str(), " ", counts.as_str());
        proof {
            assert(message@ =~= head@ + " "@ + dec_numeral(task@.downloaded as nat) + "/"@
                + dec_numeral(task@.file_size as nat));
        }
        DownloadProgress {
            phase: String::from_str(name),
            message,
            progress: Some(task.progress()),
            file_size: Some(task.file_size()),
            downloaded: Some(task.downloaded()),
        }
    } else {
        DownloadProgress {
            phase: String::from_str(name),
            message: head,
            progress: None,
            file_size: None,
            downloaded: None,
        }
    }
}

/// A snapshot of progress, as reported to a progress sink.
pub struct DownloadProgress {
    pub phase: String,
    pub message: String,
    pub progress: Option<u32>,
    pub file_size: Option<u64>,
    pub downloaded: Option<u64>,
}

/// The record of one download job.
pub struct DownloadJob {
    job_id: String,
    status: JobStatus,
    progress: u32,
    file_path: Option<String>,
    file_name: Option<String>,
    error: Option<String>,
    logs: Vec<String>,
    install_url: Option<String>,
    created_at: String,
    updated_at: String,
}

impl DownloadJob {
    pub closed spec fn spec_status(&self) -> JobStatus {
        self.status
    }

    pub closed spec fn spec_progress(&self) -> u32 {
        self.progress
    }

    pub closed spec fn spec_logs(&self) -> Seq<Seq<char>> {
        self.logs@.map_values(|l: String| l@)
    }

    pub closed spec fn spec_error(&self) -> Option<Seq<char>> {
        match self.error {
            Some(e) => Some(e@),
            None => None,
        }
    }

    pub closed spec fn spec_file_path(&self) -> Option<Seq<char>> {
        match self.file_path {
            Some(e) => Some(e@),
            None => None,
        }
    }

    pub open spec fn wf(&self) -> bool {
        self.spec_progress() <= 100
    }

    /// A pending job created at `now`.
    pub fn new(job_id: String, now: String) -> (r: DownloadJob)
        ensures
            r.wf(),
            r.spec_status() == JobStatus::Pending,
            r.spec_progress() == 0,
            r.spec_logs() == seq!["开始下载任务"@],
            r.spec_error() is None,
    {
        let mut logs: Vec<String> = Vec::new();
        logs.push(String::from_str("开始下载任务"));
        let r = DownloadJob {
            job_id,
            status: JobStatus::Pending,
            progress: 0,
            file_path: None,
            file_name: None,
            error: None,
            logs,
            install_url: None,
            created_at: now.clone(),
            updated_at: now,
        };
        proof {
            assert(r.spec_logs() =~= seq!["开始下载任务"@]);
        }
        r
    }

    pub fn job_id(&self) -> &String {
        &self.job_id
    }

    pub fn status(&self) -> (s: JobStatus)
        ensures
            s == self.spec_status(),
    {
        self.status
    }

    pub fn progress(&self) -> (p: u32)
        ensures
            p == self.spec_progress(),
    {
        self.progress
    }

    pub fn logs(&self) -> (l: &Vec<String>)
        ensures
            l@.map_values(|x: String| x@) == self.spec_logs(),
    {
        &self.logs
    }

    pub fn error(&self) -> (e: &Option<String>)
        ensures
            match *e {
                Some(x) => self.spec_error() == Some(x@),
                None => self.spec_error() is None,
            },
    {
        &self.error
    }

    pub fn file_path(&self) -> (f: &Option<String>)
        ensures
            match *f {
                Some(x) => self.spec_file_path() == Some(x@),
                None => self.spec_file_path() is None,
            },
    {
        &self.file_path
    }

    pub fn file_name(&self) -> &Option<String> {
        &self.file_name
    }

    pub fn install_url(&self) -> &Option<String> {
        &self.install_url
    }

    pub fn created_at(&self) -> &String {
        &self.created_at
    }

    pub fn updated_at(&self) -> &String {
        &self.updated_at
    }

    /// Moves the job to `to` at time `now` and logs `line`, if the move goes
    /// forward from a non-terminal status; otherwise changes nothing.
    pub fn transition(&mut self, to: JobStatus, line: String, now: String) -> (moved: bool)
        requires
            old(self).wf(),
        ensures
            final(self).wf(),
            moved == may_move(old(self).spec_status(), to),
            moved ==> final(self).spec_status() == to,
            moved ==> final(self).spec_logs() == old(self).spec_logs().push(line@),
            !moved ==> final(self).spec_status() == old(self).spec_status(),
            !moved ==> final(self).spec_logs() == old(self).spec_logs(),
            final(self).spec_progress() == old(self).spec_progress(),
            final(self).spec_error() == old(self).spec_error(),
            final(self).spec_file_path() == old(self).spec_file_path(),
    {
        let terminal = self.status == JobStatus::Done || self.status == JobStatus::Error
            || self.status == JobStatus::Cancelled;
        if terminal || rank(self.status) > rank(to) {
            return false;
        }
        let ghost before = self.logs@;
        self.status = to;
        self.logs.push(line);
        self.updated_at = now;
        proof {
            assert(self.logs@.map_values(|l: String| l@) =~= before.map_values(|l: String| l@).push(
                line@,
            ));
        }
        true
    }

    /// Cancels the job unless it has already ended.
    pub fn cancel(&mut self, now: String) -> (moved: bool)
        requires
            old(self).wf(),
        ensures
            final(self).wf(),
            moved == !status_terminal(old(self).spec_status()),
            moved ==> final(self).spec_status() == JobStatus::Cancelled,
            moved ==> final(self).spec_logs() == old(self).spec_logs().push(cancelled_line()),
            !moved ==> final(self).spec_logs() == old(self).spec_logs(),
            !moved ==> final(self).spec_status() == old(self).spec_status(),
            final(self).spec_progress() == old(self).spec_progress(),
            final(self).spec_error() == old(self).spec_error(),
            final(self).spec_file_path() == old(self).spec_file_path(),
    {
        self.transition(JobStatus::Cancelled, String::from_str("任务已取消"), now)
    }

    /// Ends the job with an error message unless it has already ended.
    pub fn fail(&mut self, message: String, now: String) -> (moved: bool)
        requires
            old(self).wf(),
        ensures
            final(self).wf(),
            moved == !status_terminal(old(self).spec_status()),
            moved ==> final(self).spec_status() == JobStatus::Error && final(self).spec_error()
                == Some(message@),
            moved ==> final(self).spec_logs() == old(self).spec_logs().push(message@),
            !moved ==> final(self).spec_logs() == old(self).spec_logs(),
            !moved ==> final(self).spec_status() == old(self).spec_status(),
            !moved ==> final(self).spec_error() == old(self).spec_error(),
            final(self).spec_progress() == old(self).spec_progress(),
            final(self).spec_file_path() == old(self).spec_file_path(),
    {
        let line = message.clone();
        let moved = self.transition(JobStatus::Error, line, now);
        if moved {
            self.error = Some(message);
        }
        moved
    }

    /// Ends the job successfully with the package at `file_path`.
    pub fn finish(&mut self, file_path: String, file_name: String, now: String) -> (moved: bool)
        requires
            old(self).wf(),
        ensures
            final(self).wf(),
            moved == !status_terminal(old(self).spec_status()),
            moved ==> final(self).spec_status() == JobStatus::Done,
            moved ==> final(self).spec_file_path() == Some(file_path@),
            moved ==> final(self).spec_progress() == 100,
            moved ==> final(self).spec_logs() == old(self).spec_logs().push(finished_line()),
            !moved ==> final(self).spec_logs() == old(self).spec_logs(),
            !moved ==> final(self).spec_status() == old(self).spec_status(),
            !moved ==> final(self).spec_progress() == old(self).spec_progress(),
            !moved ==> final(self).spec_file_path() == old(self).spec_file_path(),
            final(self).spec_error() == old(self).spec_error(),
    {
        let moved = self.transition(JobStatus::Done, String::from_str("下载完成"), now);
        if moved {
            self.file_path = Some(file_path);
            self.file_name = Some(file_name);
            self.progress = 100;
        }
        moved
    }

    /// Records progress, capped at one hundred percent.
    pub fn set_progress(&mut self, percent: u32)
        requires
            old(self).wf(),
        ensures
            final(self).wf(),
            final(self).spec_progress() == if percent > 100 { 100 } else { percent },
            final(self).spec_status() == old(self).spec_status(),
            final(self).spec_logs() == old(self).spec_logs(),
            final(self).spec_error() == old(self).spec_error(),
            final(self).spec_file_path() == old(self).spec_file_path(),
    {
        self.progress = if percent > 100 { 100 } else { percent };
    }
}

fn rank(s: JobStatus) -> (r: u8)
    ensures
        r == status_rank(s),
{
    match s {
        JobStatus::Pending => 0,
        JobStatus::Downloading => 1,
        JobStatus::Merging => 2,
        JobStatus::Signing => 3,
        JobStatus::Done => 4,
        JobStatus::Error => 4,
        JobStatus::Cancelled => 4,
    }
}

} // verus!
