//! The download queue's decisions. Spawning `yt-dlp`, reading its output
//! streams, waiting for permits and sleeping between retries happen outside
//! the library; what each of those observations means -- which event a
//! stdout line becomes, how an attempt ended, whether to retry, and what a
//! stopped item reports -- is decided here.

use vstd::prelude::*;

use crate::models::DownloadProgress;
use crate::text::{chars_of, concat, contains, contains_chars, dec, u64_to_string, views};
use crate::ytdlp::{
    BinaryStatus, JsRuntime, ProgressLine, ProgressLineModel, YtDlp, parse_progress_line,
    spec_parse_progress_line,
};

verus! {

/// Events emitted for a single queued video, identified by its index in the
/// batch's video list.
#[derive(Debug)]
pub enum DownloadEvent {
    Started(usize),
    Progress(usize, DownloadProgress),
    PostProcessing(usize),
    Log(usize, String),
    Finished(usize, Result<(), String>),
    /// yt-dlp declined to re-download because the video is already recorded
    /// in the `--download-archive` file.
    Skipped(usize),
    /// The user cancelled this item outright (not resumable).
    Cancelled(usize),
    /// The user paused this item; resuming restarts it, picking up from
    /// yt-dlp's own partial-file continuation.
    Paused(usize),
}

impl Clone for DownloadEvent {
    fn clone(&self) -> (r: Self)
        ensures
            r == *self,
    {
        match self {
            DownloadEvent::Started(i) => DownloadEvent::Started(*i),
            DownloadEvent::Progress(i, p) => DownloadEvent::Progress(*i, p.clone()),
            DownloadEvent::PostProcessing(i) => DownloadEvent::PostProcessing(*i),
            DownloadEvent::Log(i, l) => DownloadEvent::Log(*i, l.clone()),
            DownloadEvent::Finished(i, res) => DownloadEvent::Finished(
                *i,
                match res {
                    Ok(u) => Ok(*u),
                    Err(m) => Err(m.clone()),
                },
            ),
            DownloadEvent::Skipped(i) => DownloadEvent::Skipped(*i),
            DownloadEvent::Cancelled(i) => DownloadEvent::Cancelled(*i),
            DownloadEvent::Paused(i) => DownloadEvent::Paused(*i),
        }
    }
}

impl DownloadEvent {
    /// The queue index the event is about.
    pub open spec fn spec_index(&self) -> usize {
        match self {
            DownloadEvent::Started(i) => *i,
            DownloadEvent::Progress(i, _) => *i,
            DownloadEvent::PostProcessing(i) => *i,
            DownloadEvent::Log(i, _) => *i,
            DownloadEvent::Finished(i, _) => *i,
            DownloadEvent::Skipped(i) => *i,
            DownloadEvent::Cancelled(i) => *i,
            DownloadEvent::Paused(i) => *i,
        }
    }
}

/// The binaries resolved at startup (PATH, or sitting next to our own
/// executable), bundled together so download tasks work whether or not the
/// user has installed anything system-wide.
#[derive(Debug)]
pub struct BinaryPaths {
    pub ytdlp: YtDlp,
    pub ffmpeg: Option<String>,
    pub js_runtime: Option<JsRuntime>,
}

impl Clone for BinaryPaths {
    fn clone(&self) -> (r: Self)
        ensures
            r.ytdlp == self.ytdlp,
            crate::models::opt_view(r.ffmpeg) == crate::models::opt_view(self.ffmpeg),
            r.js_runtime is Some == self.js_runtime is Some,
            r.js_runtime is Some ==> r.js_runtime->0.name@ == self.js_runtime->0.name@
                && r.js_runtime->0.path@ == self.js_runtime->0.path@,
    {
        BinaryPaths {
            ytdlp: self.ytdlp.clone(),
            ffmpeg: crate::models::clone_opt_string(&self.ffmpeg),
            js_runtime: match &self.js_runtime {
                Some(js) => Some(js.clone()),
                None => None,
            },
        }
    }
}

/// `b` holds the tools that `s` found: its yt-dlp, its ffmpeg path and
/// (by name and path) its JavaScript runtime.
pub open spec fn paths_from(b: BinaryPaths, s: BinaryStatus) -> bool {
    &&& s.ytdlp == Some(b.ytdlp)
    &&& b.ffmpeg == s.ffmpeg_path
    &&& b.js_runtime is Some == s.js_runtime is Some
    &&& b.js_runtime is Some ==> b.js_runtime->0.name@ == s.js_runtime->0.name@
        && b.js_runtime->0.path@ == s.js_runtime->0.path@
}

/// The binaries a batch runs with; `None` when yt-dlp was not found.
pub fn binary_paths_of(s: &BinaryStatus) -> (r: Option<BinaryPaths>)
    ensures
        r is Some == s.ytdlp is Some,
        r matches Some(b) ==> paths_from(b, *s),
{
    match &s.ytdlp {
        Some(y) => Some(
            BinaryPaths {
                ytdlp: y.clone(),
                ffmpeg: crate::models::clone_opt_string(&s.ffmpeg_path),
                js_runtime: match &s.js_runtime {
                    Some(js) => Some(js.clone()),
                    None => None,
                },
            },
        ),
        None => None,
    }
}

/// How many downloads may run at once: the configured concurrency, but at
/// least one.
pub fn permits_for(concurrency: usize) -> (r: usize)
    ensures
        r == if concurrency >= 1 { concurrency } else { 1 },
{
    if concurrency >= 1 {
        concurrency
    } else {
        1
    }
}

/// What a stopped item reports: `Paused` when the stop was a pause
/// request, `Cancelled` otherwise.
pub open spec fn spec_stop_event(index: usize, pause_requested: bool) -> DownloadEvent {
    if pause_requested {
        DownloadEvent::Paused(index)
    } else {
        DownloadEvent::Cancelled(index)
    }
}

pub fn stop_event(index: usize, pause_requested: bool) -> (r: DownloadEvent)
    ensures
        r == spec_stop_event(index, pause_requested),
{
    if pause_requested {
        DownloadEvent::Paused(index)
    } else {
        DownloadEvent::Cancelled(index)
    }
}

// ---------------------------------------------------------------------------
// One attempt
// ---------------------------------------------------------------------------

/// What one yt-dlp invocation (one attempt, not the whole retry loop)
/// resulted in.
#[derive(Debug, PartialEq, Eq)]
pub enum AttemptOutcome {
    Success,
    Skipped,
    /// Cancelled or paused by the user -- never retried.
    StoppedByUser,
    Failed(String),
}

/// How the yt-dlp process ended, as observed by whoever waited on it.
#[derive(Debug)]
pub enum ProcessExit {
    /// Exited with a success status.
    Success,
    /// Exited with a failure status; the status as text.
    Failure(String),
    /// Waiting on the process failed; the error as text.
    WaitError(String),
}

/// Whether a stdout line reports the video as already recorded in the
/// download archive: a plain log line (not one of our progress lines)
/// containing `ARCHIVED_NOTE`.
pub open spec fn spec_marks_archived(line: Seq<char>) -> bool {
    spec_parse_progress_line(line) is Other && contains(line, ARCHIVED_NOTE())
}

/// The phrase yt-dlp prints when the archive already lists a video.
pub open spec fn ARCHIVED_NOTE() -> Seq<char> {
    "has already been recorded in the archive"@
}

/// The event a stdout line becomes -- a progress update, post-processing,
/// a plain log line, or, for a `finished` marker, nothing -- and whether it
/// marks the video as already archived.
pub fn stdout_line(index: usize, line: String) -> (r: (Option<DownloadEvent>, bool))
    ensures
        r.1 == spec_marks_archived(line@),
        match spec_parse_progress_line(line@) {
            ProgressLineModel::Downloading(m) => r.0 matches Some(DownloadEvent::Progress(i, p))
                && i == index && p@ == m,
            ProgressLineModel::PostProcessing => r.0 == Some(DownloadEvent::PostProcessing(index)),
            ProgressLineModel::Finished => r.0 is None,
            ProgressLineModel::Other => r.0 matches Some(DownloadEvent::Log(i, l)) && i == index
                && l == line,
        },
{
    match parse_progress_line(line.as_str()) {
        ProgressLine::Downloading(p) => (Some(DownloadEvent::Progress(index, p)), false),
        ProgressLine::PostProcessing => (Some(DownloadEvent::PostProcessing(index)), false),
        ProgressLine::Finished => (None, false),
        ProgressLine::Other => {
            let cs = chars_of(line.as_str());
            let note = chars_of("has already been recorded in the archive");
            let archived = contains_chars(cs.as_slice(), note.as_slice());
            (Some(DownloadEvent::Log(index, line)), archived)
        },
    }
}

/// The most stderr lines kept for a failure message.
pub const MAX_KEPT: usize = 20;

/// `recent` after one more stderr line: appended, keeping only the newest
/// `MAX_KEPT`.
pub open spec fn spec_push_recent(recent: Seq<String>, line: String) -> Seq<String> {
    let l = recent.push(line);
    if l.len() > 20 {
        l.skip(l.len() - 20)
    } else {
        l
    }
}

/// Records one stderr line, keeping only the newest `MAX_KEPT`.
pub fn push_recent(recent: &mut Vec<String>, line: String)
    ensures
        final(recent)@ == spec_push_recent(old(recent)@, line),
{
    recent.push(line);
    if recent.len() > MAX_KEPT {
        let excess = recent.len() - MAX_KEPT;
        let tail = recent.split_off(excess);
        *recent = tail;
    }
}

/// Pushing onto the stderr buffer keeps the newest lines: the result ends
/// with the new line, is a suffix of the old lines followed by it, in
/// order, and never holds more than `MAX_KEPT` lines.
pub proof fn lemma_push_recent_keeps_newest(recent: Seq<String>, line: String)
    requires
        recent.len() <= 20,
    ensures
        spec_push_recent(recent, line).len() <= 20,
        spec_push_recent(recent, line).last() == line,
        spec_push_recent(recent, line) == recent.push(line).skip(
            recent.push(line).len() - spec_push_recent(recent, line).len(),
        ),
{
    let l = recent.push(line);
    if l.len() <= 20 {
        assert(l.skip(0) =~= l);
    }
}

/// `parts` joined with `sep` between them.
pub open spec fn join_with(parts: Seq<Seq<char>>, sep: Seq<char>) -> Seq<char>
    decreases parts.len(),
{
    if parts.len() == 0 {
        Seq::empty()
    } else if parts.len() == 1 {
        parts[0]
    } else {
        join_with(parts.drop_last(), sep) + sep + parts.last()
    }
}

/// The last (at most) three lines of `tail`.
pub open spec fn last_three(tail: Seq<Seq<char>>) -> Seq<Seq<char>> {
    if tail.len() > 3 {
        tail.skip(tail.len() - 3)
    } else {
        tail
    }
}

/// The failure message of a process that exited unsuccessfully: its
/// newest (up to three) stderr lines joined with `" | "`, or, with no
/// stderr at all, the exit status.
pub open spec fn spec_exit_message(status: Seq<char>, tail: Seq<Seq<char>>) -> Seq<char> {
    if tail.len() == 0 {
        "yt-dlp exited with status "@ + status
    } else {
        join_with(last_three(tail), " | "@)
    }
}

fn join_lines(parts: &[String], from: usize) -> (r: String)
    requires
        from < parts@.len(),
    ensures
        r@ == join_with(views(parts@.skip(from as int)), " | "@),
{
    let mut out = parts[from].clone();
    let mut i: usize = from + 1;
    proof {
        assert(views(parts@.skip(from as int).take(1)) =~= seq![parts@[from as int]@]);
    }
    while i < parts.len()
        invariant
            from < i <= parts@.len(),
            out@ == join_with(views(parts@.skip(from as int).take(i - from)), " | "@),
        decreases parts@.len() - i,
    {
        let ghost prev = views(parts@.skip(from as int).take(i - from));
        let a = concat(out.as_str(), " | ");
        out = concat(a.as_str(), parts[i].as_str());
        i = i + 1;
        proof {
            let cur = views(parts@.skip(from as int).take(i - from));
            assert(cur.drop_last() =~= prev);
            assert(cur.last() == parts@[i - 1]@);
            assert(cur.len() > 1);
        }
    }
    assert(parts@.skip(from as int).take(parts@.len() - from) =~= parts@.skip(from as int));
    out
}

/// The failure message for an unsuccessful exit with status text `status`
/// and the kept stderr lines `tail`.
pub fn exit_message(status: &str, tail: &Vec<String>) -> (r: String)
    ensures
        r@ == spec_exit_message(status@, views(tail@)),
{
    if tail.len() == 0 {
        return concat("yt-dlp exited with status ", status);
    }
    let from: usize = if tail.len() > 3 { tail.len() - 3 } else { 0 };
    let r = join_lines(tail.as_slice(), from);
    proof {
        assert(views(tail@.skip(from as int)) =~= last_three(views(tail@)));
    }
    r
}

/// Classifies how one attempt ended: a stop by the user wins over anything
/// the process did; a successful exit is `Skipped` when the archive already
/// had the video and `Success` otherwise; an unsuccessful exit fails with
/// `spec_exit_message`, and a failed wait with its error.
pub fn attempt_outcome(
    stopped: bool,
    exit: ProcessExit,
    already_archived: bool,
    tail: &Vec<String>,
) -> (r: AttemptOutcome)
    ensures
        stopped ==> r == AttemptOutcome::StoppedByUser,
        !stopped ==> match exit {
            ProcessExit::Success => r == if already_archived {
                AttemptOutcome::Skipped
            } else {
                AttemptOutcome::Success
            },
            ProcessExit::Failure(status) => r matches AttemptOutcome::Failed(m) && m@
                == spec_exit_message(status@, views(tail@)),
            ProcessExit::WaitError(e) => r matches AttemptOutcome::Failed(m) && m@
                == "failed waiting on yt-dlp: "@ + e@,
        },
{
    if stopped {
        return AttemptOutcome::StoppedByUser;
    }
    match exit {
        ProcessExit::Success => if already_archived {
            AttemptOutcome::Skipped
        } else {
            AttemptOutcome::Success
        },
        ProcessExit::Failure(status) => AttemptOutcome::Failed(exit_message(status.as_str(), tail)),
        ProcessExit::WaitError(e) => AttemptOutcome::Failed(
            concat("failed waiting on yt-dlp: ", e.as_str()),
        ),
    }
}

/// The outcome of an attempt whose process could not be started.
pub fn launch_failure(error: &str) -> (r: AttemptOutcome)
    ensures
        r matches AttemptOutcome::Failed(m) && m@ == "failed to launch yt-dlp: "@ + error@,
{
    AttemptOutcome::Failed(concat("failed to launch yt-dlp: ", error))
}

// ---------------------------------------------------------------------------
// The retry loop
// ---------------------------------------------------------------------------

/// A failed download is retried until this many attempts in total have
/// been made.
pub const MAX_ATTEMPTS: u32 = 5;

/// Seconds to wait before each retry.
pub const RETRY_DELAY_SECS: u64 = 3;

/// The log line announcing a retry after attempt `attempt` failed with
/// `error`.
pub open spec fn spec_retry_note(attempt: u32, error: Seq<char>) -> Seq<char> {
    "-- attempt "@ + dec(attempt as nat) + "/5 failed ("@ + error + "), retrying in 3s --"@
}

/// The final failure message once every attempt failed, the last with
/// `error`.
pub open spec fn spec_final_failure(error: Seq<char>) -> Seq<char> {
    "failed after 5 attempts: "@ + error
}

/// An event that ends an item: finished (either way), skipped, cancelled
/// or paused.
pub open spec fn is_terminal_event(e: DownloadEvent) -> bool {
    e is Finished || e is Skipped || e is Cancelled || e is Paused
}

/// Whether the attempt numbered `attempt` ends the loop when it has
/// `outcome`: anything but a failure does, and so does the last attempt.
pub open spec fn step_is_final(attempt: u32, outcome: AttemptOutcome) -> bool {
    !(outcome is Failed) || attempt >= 5
}

/// How many attempts a run makes, starting at attempt `attempt`, when its
/// attempts have the outcomes `outs` in order (0 when `outs` runs out first).
pub open spec fn run_length(outs: Seq<AttemptOutcome>, attempt: u32) -> nat
    decreases outs.len(),
{
    if outs.len() == 0 {
        0
    } else if step_is_final(attempt, outs[0]) || attempt >= 5 {
        1
    } else {
        1 + run_length(outs.drop_first(), (attempt + 1) as u32)
    }
}

/// One item's retry loop: which attempt is running (counting from 1) and
/// the last failure seen.
#[derive(Debug)]
pub struct RetryLoop {
    pub index: usize,
    pub attempt: u32,
    pub last_error: String,
}

/// What the loop does next after an attempt.
#[derive(Debug)]
pub enum RetryStep {
    /// The item is finished: report this event and stop.
    Report(DownloadEvent),
    /// Report this log line, wait `RETRY_DELAY_SECS`, then run the next
    /// attempt (unless the user stops the item meanwhile, see
    /// `RetryLoop::stopped_while_waiting`).
    RetryAfterDelay(DownloadEvent),
}

impl RetryLoop {
    /// The loop invariant: attempts are counted from 1 and never exceed
    /// `MAX_ATTEMPTS`.
    pub open spec fn wf(&self) -> bool {
        1 <= self.attempt <= 5
    }

    /// The loop before the first attempt of item `index`.
    pub fn new(index: usize) -> (r: Self)
        ensures
            r.wf(),
            r.index == index,
            r.attempt == 1,
            r.last_error@ == Seq::<char>::empty(),
    {
        RetryLoop { index, attempt: 1, last_error: String::new() }
    }

    /// Decides what follows an attempt that ended with `outcome`;
    /// `pause_requested` tells a pause from a cancel when the user stopped
    /// the item. Success, a skip and a stop by the user are final; a failure
    /// is retried until `MAX_ATTEMPTS` attempts were made, and then reported
    /// with the last error.
    pub fn after_attempt(&mut self, outcome: AttemptOutcome, pause_requested: bool) -> (r:
        RetryStep)
        requires
            old(self).wf(),
        ensures
            final(self).wf(),
            final(self).index == old(self).index,
            (r is Report) == step_is_final(old(self).attempt, outcome),
            r matches RetryStep::Report(e) ==> is_terminal_event(e),
            r matches RetryStep::RetryAfterDelay(e) ==> e is Log,
            !step_is_final(old(self).attempt, outcome) ==> final(self).attempt == old(self).attempt
                + 1,
            match outcome {
                AttemptOutcome::Success => r == RetryStep::Report(
                    DownloadEvent::Finished(old(self).index, Ok(())),
                ) && *final(self) == *old(self),
                AttemptOutcome::Skipped => r == RetryStep::Report(
                    DownloadEvent::Skipped(old(self).index),
                ) && *final(self) == *old(self),
                AttemptOutcome::StoppedByUser => r == RetryStep::Report(
                    spec_stop_event(old(self).index, pause_requested),
                ) && *final(self) == *old(self),
                AttemptOutcome::Failed(m) => {
                    &&& final(self).last_error@ == m@
                    &&& if old(self).attempt == 5 {
                        &&& final(self).attempt == 5
                        &&& r matches RetryStep::Report(DownloadEvent::Finished(i, Err(e)))
                        &&& i == old(self).index
                        &&& e@ == spec_final_failure(m@)
                    } else {
                        &&& final(self).attempt == old(self).attempt + 1
                        &&& r matches RetryStep::RetryAfterDelay(DownloadEvent::Log(i, l))
                        &&& i == old(self).index
                        &&& l@ == spec_retry_note(old(self).attempt, m@)
                    }
                },
            },
    {
        match outcome {
            AttemptOutcome::Success => RetryStep::Report(DownloadEvent::Finished(self.index, Ok(()))),
            AttemptOutcome::Skipped => RetryStep::Report(DownloadEvent::Skipped(self.index)),
            AttemptOutcome::StoppedByUser => RetryStep::Report(
                stop_event(self.index, pause_requested),
            ),
            AttemptOutcome::Failed(message) => {
                self.last_error = message;
                if self.attempt == MAX_ATTEMPTS {
                    let m = concat("failed after 5 attempts: ", self.last_error.as_str());
                    RetryStep::Report(DownloadEvent::Finished(self.index, Err(m)))
                } else {
                    let a = concat("-- attempt ", u64_to_string(self.attempt as u64).as_str());
                    let b = concat(a.as_str(), "/5 failed (");
                    let c = concat(b.as_str(), self.last_error.as_str());
                    let note = concat(c.as_str(), "), retrying in 3s --");
                    self.attempt = self.attempt + 1;
                    RetryStep::RetryAfterDelay(DownloadEvent::Log(self.index, note))
                }
            },
        }
    }

    /// What the item reports when the user stops it during the wait before
    /// a retry.
    pub fn stopped_while_waiting(&self, pause_requested: bool) -> (r: DownloadEvent)
        ensures
            r == spec_stop_event(self.index, pause_requested),
    {
        stop_event(self.index, pause_requested)
    }
}

/// Only failures are retried, and never beyond the last attempt: an
/// attempt that succeeded, was skipped or was stopped by the user always
/// ends the loop, and a failure ends it exactly when it was attempt
/// `MAX_ATTEMPTS`.
pub proof fn lemma_retry_only_failures(attempt: u32, outcome: AttemptOutcome)
    requires
        1 <= attempt <= 5,
    ensures
        (outcome is Failed && attempt < 5) <==> !(outcome is Success || outcome is Skipped
            || outcome is StoppedByUser || attempt == 5),
{
}

/// A whole run of one item ends within `MAX_ATTEMPTS` attempts: for any
/// outcomes of its attempts, the loop started at attempt 1 reports a final
/// step at some attempt `k` between 1 and 5, every attempt before it failed
/// (and only reported a retry note), and a run that ends in failure made
/// all five attempts, each failing. Each step reports exactly one event
/// (see `after_attempt`): retries report a log line, the final step a
/// terminal event, so the terminal event is the run's only one and its last.
pub proof fn lemma_run_ends_within_five_attempts(outs: Seq<AttemptOutcome>)
    requires
        outs.len() >= 5,
    ensures
        1 <= run_length(outs, 1) <= 5,
        step_is_final(run_length(outs, 1) as u32, outs[run_length(outs, 1) - 1]),
        forall|j: int|
            0 <= j < run_length(outs, 1) - 1 ==> !step_is_final((j + 1) as u32, #[trigger] outs[j])
                && outs[j] is Failed,
        outs[run_length(outs, 1) - 1] is Failed ==> run_length(outs, 1) == 5,
{
    lemma_run_from(outs, 1);
}

proof fn lemma_run_from(outs: Seq<AttemptOutcome>, a: u32)
    requires
        1 <= a <= 5,
        outs.len() >= 6 - a,
    ensures
        1 <= run_length(outs, a) <= 6 - a,
        step_is_final((a + run_length(outs, a) - 1) as u32, outs[run_length(outs, a) - 1]),
        forall|j: int|
            0 <= j < run_length(outs, a) - 1 ==> !step_is_final((a + j) as u32, #[trigger] outs[j])
                && outs[j] is Failed,
        outs[run_length(outs, a) - 1] is Failed ==> a + run_length(outs, a) - 1 == 5,
    decreases 5 - a,
{
    if step_is_final(a, outs[0]) || a >= 5 {
        assert(run_length(outs, a) == 1);
    } else {
        let rest = outs.drop_first();
        lemma_run_from(rest, (a + 1) as u32);
        assert(run_length(outs, a) == 1 + run_length(rest, (a + 1) as u32));
        assert forall|j: int| 0 <= j < run_length(outs, a) - 1 implies !step_is_final(
            (a + j) as u32,
            #[trigger] outs[j],
        ) && outs[j] is Failed by {
            if j > 0 {
                assert(outs[j] == rest[j - 1]);
                assert(!step_is_final(((a + 1) + (j - 1)) as u32, rest[j - 1]));
            }
        }
        assert(outs[run_length(outs, a) - 1] == rest[run_length(rest, (a + 1) as u32) - 1]);
    }
}

// ---------------------------------------------------------------------------
// One item's whole run
// ---------------------------------------------------------------------------

/// Where one item's run stands.
#[derive(Debug, Clone, Copy, PartialEq, Eq, Structural)]
pub enum RunPhase {
    /// Waiting for a download slot.
    Queued,
    /// A yt-dlp attempt is running.
    Attempting,
    /// Waiting `RETRY_DELAY_SECS` before the next attempt.
    Waiting,
    /// The item has reported how it ended; nothing more is sent.
    Over,
}

/// One item's run from the queue to its end: the retry loop, the phase,
/// and (ghost) every event the run has sent so far. The output lines an
/// attempt prints are reported beside these, by `stdout_line`, while the
/// phase is `Attempting`.
pub struct ItemRun {
    pub retry: RetryLoop,
    pub phase: RunPhase,
    pub sent: Ghost<Seq<DownloadEvent>>,
}

/// Every event is about item `index`.
pub open spec fn all_about(sent: Seq<DownloadEvent>, index: usize) -> bool {
    forall|j: int| 0 <= j < sent.len() ==> (#[trigger] sent[j]).spec_index() == index
}

/// Only the last event, if any, ends the item.
pub open spec fn terminal_only_last(sent: Seq<DownloadEvent>) -> bool {
    forall|j: int| 0 <= j < sent.len() - 1 ==> !is_terminal_event(#[trigger] sent[j])
}

/// A run that is still going: it started, and since then only reported
/// retry notes, one per failed attempt.
pub open spec fn running_trace(sent: Seq<DownloadEvent>, index: usize, attempt: u32) -> bool {
    &&& sent.len() == attempt
    &&& sent[0] == DownloadEvent::Started(index)
    &&& forall|j: int| 1 <= j < sent.len() ==> (#[trigger] sent[j]) is Log
}

/// A run that is over: it ended with its one terminal event, either at once
/// (stopped before it started) or after starting and at most four retry
/// notes; a failure is reported only after five attempts.
pub open spec fn over_trace(sent: Seq<DownloadEvent>, index: usize) -> bool {
    &&& 1 <= sent.len() <= 6
    &&& is_terminal_event(sent.last())
    &&& terminal_only_last(sent)
    &&& sent.len() == 1 ==> sent[0] is Cancelled || sent[0] is Paused
    &&& sent.len() > 1 ==> sent[0] == DownloadEvent::Started(index)
    &&& forall|j: int| 1 <= j < sent.len() - 1 ==> (#[trigger] sent[j]) is Log
    &&& sent.last() matches DownloadEvent::Finished(_, Err(m)) ==> sent.len() == 6 && exists|
        e: Seq<char>,
    | m@ == spec_final_failure(e)
}

impl ItemRun {
    pub open spec fn wf(&self) -> bool {
        &&& self.retry.wf()
        &&& all_about(self.sent@, self.retry.index)
        &&& match self.phase {
            RunPhase::Queued => self.sent@.len() == 0 && self.retry.attempt == 1,
            RunPhase::Attempting => running_trace(self.sent@, self.retry.index, self.retry.attempt),
            RunPhase::Waiting => running_trace(self.sent@, self.retry.index, self.retry.attempt)
                && self.retry.attempt >= 2,
            RunPhase::Over => over_trace(self.sent@, self.retry.index),
        }
    }

    /// Item `index`, queued, having sent nothing.
    pub fn new(index: usize) -> (r: Self)
        ensures
            r.wf(),
            r.retry.index == index,
            r.phase == RunPhase::Queued,
            r.sent@ == Seq::<DownloadEvent>::empty(),
    {
        ItemRun { retry: RetryLoop::new(index), phase: RunPhase::Queued, sent: Ghost(Seq::empty()) }
    }

    /// The queue gave the item a slot (`got_slot`), or the item was stopped
    /// first: it reports `Started` and its first attempt runs, or it reports
    /// the stop and is over.
    pub fn begin(&mut self, got_slot: bool, pause_requested: bool) -> (e: DownloadEvent)
        requires
            old(self).wf(),
            old(self).phase == RunPhase::Queued,
        ensures
            final(self).wf(),
            final(self).retry == old(self).retry,
            final(self).sent@ == old(self).sent@.push(e),
            e == (if got_slot {
                DownloadEvent::Started(old(self).retry.index)
            } else {
                spec_stop_event(old(self).retry.index, pause_requested)
            }),
            final(self).phase == (if got_slot { RunPhase::Attempting } else { RunPhase::Over }),
    {
        let e = if got_slot {
            self.phase = RunPhase::Attempting;
            DownloadEvent::Started(self.retry.index)
        } else {
            self.phase = RunPhase::Over;
            stop_event(self.retry.index, pause_requested)
        };
        let ghost sent = self.sent@.push(e);
        self.sent = Ghost(sent);
        e
    }

    /// The running attempt ended with `outcome`: what `RetryLoop::after_attempt`
    /// decides is reported, and the run is over or waits for its next
    /// attempt.
    pub fn attempt_ended(&mut self, outcome: AttemptOutcome, pause_requested: bool) -> (r: RetryStep)
        requires
            old(self).wf(),
            old(self).phase == RunPhase::Attempting,
        ensures
            final(self).wf(),
            final(self).retry.index == old(self).retry.index,
            match r {
                RetryStep::Report(e) => final(self).sent@ == old(self).sent@.push(e)
                    && final(self).phase == RunPhase::Over,
                RetryStep::RetryAfterDelay(e) => final(self).sent@ == old(self).sent@.push(e)
                    && final(self).phase == RunPhase::Waiting,
            },
            (r is Report) == step_is_final(old(self).retry.attempt, outcome),
            match outcome {
                AttemptOutcome::Success => r == RetryStep::Report(
                    DownloadEvent::Finished(old(self).retry.index, Ok(())),
                ),
                AttemptOutcome::Skipped => r == RetryStep::Report(
                    DownloadEvent::Skipped(old(self).retry.index),
                ),
                AttemptOutcome::StoppedByUser => r == RetryStep::Report(
                    spec_stop_event(old(self).retry.index, pause_requested),
                ),
                AttemptOutcome::Failed(m) => if old(self).retry.attempt == 5 {
                    r matches RetryStep::Report(DownloadEvent::Finished(i, Err(e)))
                        && i == old(self).retry.index && e@ == spec_final_failure(m@)
                } else {
                    &&& final(self).retry.attempt == old(self).retry.attempt + 1
                    &&& r matches RetryStep::RetryAfterDelay(DownloadEvent::Log(i, l))
                    &&& i == old(self).retry.index
                    &&& l@ == spec_retry_note(old(self).retry.attempt, m@)
                },
            },
    {
        let ghost old_sent = self.sent@;
        let ghost m: Seq<char> = match outcome {
            AttemptOutcome::Failed(ref m) => m@,
            _ => Seq::empty(),
        };
        let step = self.retry.after_attempt(outcome, pause_requested);
        match &step {
            RetryStep::Report(e) => {
                let ghost sent = old_sent.push(*e);
                self.sent = Ghost(sent);
                self.phase = RunPhase::Over;
                assert(sent.last() == *e);
                assert forall|j: int| 0 <= j < sent.len() - 1 implies !is_terminal_event(
                    #[trigger] sent[j],
                ) by {
                    assert(sent[j] == old_sent[j]);
                    if j > 0 {
                        assert(old_sent[j] is Log);
                    }
                }
                assert forall|j: int| 1 <= j < sent.len() - 1 implies (#[trigger] sent[j]) is Log by {
                    assert(sent[j] == old_sent[j]);
                }
                assert(all_about(sent, self.retry.index)) by {
                    assert forall|j: int| 0 <= j < sent.len() implies (#[trigger] sent[j]).spec_index()
                        == self.retry.index by {
                        if j < old_sent.len() {
                            assert(sent[j] == old_sent[j]);
                        }
                    }
                }
                proof {
                    match sent.last() {
                        DownloadEvent::Finished(_, Err(msg)) => {
                            assert(msg@ == spec_final_failure(m));
                        },
                        _ => {},
                    }
                }
            },
            RetryStep::RetryAfterDelay(e) => {
                let ghost sent = old_sent.push(*e);
                self.sent = Ghost(sent);
                self.phase = RunPhase::Waiting;
                assert forall|j: int| 1 <= j < sent.len() implies (#[trigger] sent[j]) is Log by {
                    if j < old_sent.len() {
                        assert(sent[j] == old_sent[j]);
                    }
                }
                assert(all_about(sent, self.retry.index)) by {
                    assert forall|j: int| 0 <= j < sent.len() implies (#[trigger] sent[j]).spec_index()
                        == self.retry.index by {
                        if j < old_sent.len() {
                            assert(sent[j] == old_sent[j]);
                        }
                    }
                }
            },
        }
        step
    }

    /// The wait before the next attempt ended, by the user stopping the item
    /// (`stopped`) or by running out: a stop is reported and the run is
    /// over; otherwise nothing is reported and the next attempt runs.
    pub fn wait_ended(&mut self, stopped: bool, pause_requested: bool) -> (r: Option<DownloadEvent>)
        requires
            old(self).wf(),
            old(self).phase == RunPhase::Waiting,
        ensures
            final(self).wf(),
            final(self).retry == old(self).retry,
            stopped ==> r == Some(spec_stop_event(old(self).retry.index, pause_requested))
                && final(self).sent@ == old(self).sent@.push(r->0) && final(self).phase
                == RunPhase::Over,
            !stopped ==> r is None && final(self).sent@ == old(self).sent@ && final(self).phase
                == RunPhase::Attempting,
    {
        if stopped {
            let ghost old_sent = self.sent@;
            let e = self.retry.stopped_while_waiting(pause_requested);
            let ghost sent = old_sent.push(e);
            self.sent = Ghost(sent);
            self.phase = RunPhase::Over;
            assert forall|j: int| 0 <= j < sent.len() - 1 implies !is_terminal_event(
                #[trigger] sent[j],
            ) by {
                assert(sent[j] == old_sent[j]);
                if j > 0 {
                    assert(old_sent[j] is Log);
                }
            }
            assert forall|j: int| 1 <= j < sent.len() - 1 implies (#[trigger] sent[j]) is Log by {
                assert(sent[j] == old_sent[j]);
            }
            assert(all_about(sent, self.retry.index)) by {
                assert forall|j: int| 0 <= j < sent.len() implies (#[trigger] sent[j]).spec_index()
                    == self.retry.index by {
                    if j < old_sent.len() {
                        assert(sent[j] == old_sent[j]);
                    }
                }
            }
            Some(e)
        } else {
            self.phase = RunPhase::Attempting;
            None
        }
    }
}

/// What one item's run sends, over any sequence of slots, attempt outcomes
/// and stops: every event is about the item; until it is over the run sends
/// no terminal event, and has made at most `MAX_ATTEMPTS` attempts, having
/// sent `Started` first and then one retry note per failed attempt; once it
/// is over it has sent exactly one terminal event (`Finished`, `Skipped`,
/// `Cancelled` or `Paused`), as its last, after `Started` unless it was
/// stopped before it started, and a failure is reported only after five
/// attempts, as `failed after 5 attempts: ` and the last error.
pub proof fn lemma_item_run_trace(run: ItemRun)
    requires
        run.wf(),
    ensures
        forall|j: int| 0 <= j < run.sent@.len() ==> (#[trigger] run.sent@[j]).spec_index()
            == run.retry.index,
        run.phase != RunPhase::Over ==> forall|j: int|
            0 <= j < run.sent@.len() ==> !is_terminal_event(#[trigger] run.sent@[j]),
        (run.phase == RunPhase::Attempting || run.phase == RunPhase::Waiting) ==> {
            &&& run.sent@[0] == DownloadEvent::Started(run.retry.index)
            &&& run.sent@.len() == run.retry.attempt <= MAX_ATTEMPTS
        },
        run.phase == RunPhase::Over ==> {
            &&& is_terminal_event(run.sent@.last())
            &&& forall|j: int|
                0 <= j < run.sent@.len() - 1 ==> !is_terminal_event(#[trigger] run.sent@[j])
            &&& run.sent@.len() > 1 ==> run.sent@[0] == DownloadEvent::Started(run.retry.index)
            &&& run.sent@.len() <= MAX_ATTEMPTS + 1
            &&& run.sent@.last() matches DownloadEvent::Finished(_, Err(m)) ==> {
                &&& run.sent@.len() == MAX_ATTEMPTS + 1
                &&& exists|e: Seq<char>| m@ == "failed after 5 attempts: "@ + e
            }
        },
{
    if run.phase == RunPhase::Attempting || run.phase == RunPhase::Waiting {
        assert forall|j: int| 0 <= j < run.sent@.len() implies !is_terminal_event(
            #[trigger] run.sent@[j],
        ) by {
            if j > 0 {
                assert(run.sent@[j] is Log);
            }
        }
    }
}

// ---------------------------------------------------------------------------
// Single-attempt queue
// ---------------------------------------------------------------------------

/// The event the single-attempt queue reports once its one yt-dlp run has
/// ended: cancelled, skipped, done, or failed with the attempt's message.
pub fn single_attempt_event(index: usize, outcome: AttemptOutcome) -> (r: DownloadEvent)
    ensures
        match outcome {
            AttemptOutcome::Success => r == DownloadEvent::Finished(index, Ok(())),
            AttemptOutcome::Skipped => r == DownloadEvent::Skipped(index),
            AttemptOutcome::StoppedByUser => r == DownloadEvent::Cancelled(index),
            AttemptOutcome::Failed(m) => r == DownloadEvent::Finished(index, Err(m)),
        },
{
    match outcome {
        AttemptOutcome::Success => DownloadEvent::Finished(index, Ok(())),
        AttemptOutcome::Skipped => DownloadEvent::Skipped(index),
        AttemptOutcome::StoppedByUser => DownloadEvent::Cancelled(index),
        AttemptOutcome::Failed(m) => DownloadEvent::Finished(index, Err(m)),
    }
}

} // verus!
