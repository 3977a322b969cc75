//! Download history: a record of past download batches, written once a
//! batch finishes and read back so a user can see what they downloaded
//! before -- and, for a playlist/channel batch, which of its videos actually
//! finished vs. failed. Reading and writing `history.json` happens outside
//! the library; here are the records, how a batch becomes one, and how the
//! newest-first, capped list is kept.

use vstd::prelude::*;

use crate::config::{project_dirs_data_dir, spec_archive_path};
use crate::models::{
    DownloadItem, DownloadState, PlaylistInfo, clone_opt_string, opt_view, spec_duration_label,
    duration_label_of,
};
use crate::paths::{join_path_on, path_join_on, target_is_windows};
use crate::text::{concat, dec, dec2, dec_pad, u64_to_string, u64_to_string2, u64_to_string_pad};
use crate::ytdlp::{human_bytes, spec_human_bytes};

verus! {

/// What ultimately happened to one video in a finished batch: the terminal
/// counterpart of `DownloadState` (a batch is only recorded once every item
/// reached one, so there is no in-progress case).
#[derive(Debug, PartialEq)]
pub enum HistoryOutcome {
    Done,
    Skipped,
    Cancelled,
    Failed(String),
}

impl Clone for HistoryOutcome {
    fn clone(&self) -> (r: Self)
        ensures
            r == *self,
    {
        match self {
            HistoryOutcome::Done => HistoryOutcome::Done,
            HistoryOutcome::Skipped => HistoryOutcome::Skipped,
            HistoryOutcome::Cancelled => HistoryOutcome::Cancelled,
            HistoryOutcome::Failed(m) => HistoryOutcome::Failed(m.clone()),
        }
    }
}

/// The recorded outcome of a terminal state, `None` for a state that is
/// still in progress (or paused).
pub open spec fn spec_outcome(state: DownloadState) -> Option<HistoryOutcome> {
    match state {
        DownloadState::Done => Some(HistoryOutcome::Done),
        DownloadState::Skipped => Some(HistoryOutcome::Skipped),
        DownloadState::Cancelled => Some(HistoryOutcome::Cancelled),
        DownloadState::Failed(msg) => Some(HistoryOutcome::Failed(msg)),
        _ => None,
    }
}

impl HistoryOutcome {
    pub open spec fn spec_label(&self) -> Seq<char> {
        match self {
            HistoryOutcome::Done => "Done"@,
            HistoryOutcome::Skipped => "Skipped"@,
            HistoryOutcome::Cancelled => "Cancelled"@,
            HistoryOutcome::Failed(_) => "Failed"@,
        }
    }

    pub fn label(&self) -> (r: &'static str)
        ensures
            r@ == self.spec_label(),
    {
        match self {
            HistoryOutcome::Done => "Done",
            HistoryOutcome::Skipped => "Skipped",
            HistoryOutcome::Cancelled => "Cancelled",
            HistoryOutcome::Failed(_) => "Failed",
        }
    }

    /// `None` for a state history never records (still in progress).
    pub fn from_state(state: &DownloadState) -> (r: Option<Self>)
        ensures
            r == spec_outcome(*state),
    {
        match state {
            DownloadState::Done => Some(HistoryOutcome::Done),
            DownloadState::Skipped => Some(HistoryOutcome::Skipped),
            DownloadState::Cancelled => Some(HistoryOutcome::Cancelled),
            DownloadState::Failed(msg) => Some(HistoryOutcome::Failed(msg.clone())),
            DownloadState::Queued | DownloadState::Starting | DownloadState::Downloading(_)
            | DownloadState::PostProcessing | DownloadState::Paused => None,
        }
    }
}

/// One video's recorded result within a `HistoryEntry`.
#[derive(Debug)]
pub struct HistoryVideoEntry {
    pub title: String,
    pub uploader: Option<String>,
    pub duration_secs: Option<u64>,
    pub filesize_bytes: Option<u64>,
    pub url: String,
    pub outcome: HistoryOutcome,
}

impl Clone for HistoryVideoEntry {
    fn clone(&self) -> (r: Self)
        ensures
            r == *self,
    {
        HistoryVideoEntry {
            title: self.title.clone(),
            uploader: clone_opt_string(&self.uploader),
            duration_secs: self.duration_secs,
            filesize_bytes: self.filesize_bytes,
            url: self.url.clone(),
            outcome: self.outcome.clone(),
        }
    }
}

/// The size as `human_bytes` renders it, or `--` when unknown.
pub open spec fn spec_size_label(b: Option<u64>) -> Seq<char> {
    match b {
        Some(v) => spec_human_bytes(v as nat),
        None => "--"@,
    }
}

impl HistoryVideoEntry {
    pub fn duration_label(&self) -> (r: String)
        ensures
            r@ == spec_duration_label(self.duration_secs),
    {
        duration_label_of(self.duration_secs)
    }

    pub fn size_label(&self) -> (r: String)
        ensures
            r@ == spec_size_label(self.filesize_bytes),
    {
        match self.filesize_bytes {
            Some(b) => human_bytes(b),
            None => String::from_str("--"),
        }
    }
}

/// One finished download batch: a playlist/channel (its videos kept
/// individually) or a lone video (a single entry in `videos`).
#[derive(Debug)]
pub struct HistoryEntry {
    /// Unique within one history file: unix time plus nanoseconds.
    pub id: String,
    pub title: String,
    pub source_url: String,
    pub uploader: Option<String>,
    pub is_playlist: bool,
    /// Unix timestamp (seconds) of when the batch finished.
    pub finished_at: u64,
    pub videos: Vec<HistoryVideoEntry>,
}

/// A copy of a list of recorded videos.
fn clone_video_entries(v: &Vec<HistoryVideoEntry>) -> (r: Vec<HistoryVideoEntry>)
    ensures
        r@ == v@,
{
    let mut r: Vec<HistoryVideoEntry> = Vec::new();
    let mut i: usize = 0;
    while i < v.len()
        invariant
            i <= v@.len(),
            r@ == v@.take(i as int),
        decreases v@.len() - i,
    {
        r.push(v[i].clone());
        i = i + 1;
        assert(r@ =~= v@.take(i as int));
    }
    assert(v@.take(v@.len() as int) =~= v@);
    r
}

impl Clone for HistoryEntry {
    fn clone(&self) -> (r: Self)
        ensures
            r.id == self.id,
            r.title == self.title,
            r.source_url == self.source_url,
            r.uploader == self.uploader,
            r.is_playlist == self.is_playlist,
            r.finished_at == self.finished_at,
            r.videos@ == self.videos@,
    {
        HistoryEntry {
            id: self.id.clone(),
            title: self.title.clone(),
            source_url: self.source_url.clone(),
            uploader: clone_opt_string(&self.uploader),
            is_playlist: self.is_playlist,
            finished_at: self.finished_at,
            videos: clone_video_entries(&self.videos),
        }
    }
}

/// The record of one item, if it reached a terminal state.
pub open spec fn spec_record(item: DownloadItem) -> Option<HistoryVideoEntry> {
    match spec_outcome(item.state) {
        Some(outcome) => Some(
            HistoryVideoEntry {
                title: item.video.title,
                uploader: item.video.uploader,
                duration_secs: item.video.duration_secs,
                filesize_bytes: item.video.filesize_bytes,
                url: item.video.url,
                outcome: outcome,
            },
        ),
        None => None,
    }
}

/// The records of the items that reached a terminal state, in order.
pub open spec fn recorded_videos(items: Seq<DownloadItem>) -> Seq<HistoryVideoEntry>
    decreases items.len(),
{
    if items.len() == 0 {
        Seq::empty()
    } else {
        let prev = recorded_videos(items.drop_last());
        match spec_record(items.last()) {
            Some(r) => prev.push(r),
            None => prev,
        }
    }
}

/// How many recorded videos have the given kind of outcome.
pub open spec fn count_done(vs: Seq<HistoryVideoEntry>) -> nat
    decreases vs.len(),
{
    if vs.len() == 0 {
        0
    } else {
        count_done(vs.drop_last()) + if vs.last().outcome is Done { 1nat } else { 0nat }
    }
}

pub open spec fn count_failed(vs: Seq<HistoryVideoEntry>) -> nat
    decreases vs.len(),
{
    if vs.len() == 0 {
        0
    } else {
        count_failed(vs.drop_last()) + if vs.last().outcome is Failed { 1nat } else { 0nat }
    }
}

/// The failed count counts exactly the videos whose outcome is a failure:
/// it is the number of `Failed` entries, so done, skipped and cancelled
/// videos never add to it, and together with the other three outcomes it
/// accounts for every video once.
pub proof fn lemma_failed_count_counts_failures(vs: Seq<HistoryVideoEntry>)
    ensures
        count_failed(vs) == vs.filter(|v: HistoryVideoEntry| v.outcome is Failed).len(),
        count_done(vs) == vs.filter(|v: HistoryVideoEntry| v.outcome is Done).len(),
        count_failed(vs) + count_done(vs) + vs.filter(|v: HistoryVideoEntry| v.outcome is Skipped).len()
            + vs.filter(|v: HistoryVideoEntry| v.outcome is Cancelled).len() == vs.len(),
    decreases vs.len(),
{
    reveal(Seq::filter);
    if vs.len() > 0 {
        lemma_failed_count_counts_failures(vs.drop_last());
    }
}

/// `"<secs>-<nanos>"`.
pub open spec fn spec_unique_id(secs: u64, nanos: u32) -> Seq<char> {
    dec(secs as nat) + "-"@ + dec(nanos as nat)
}

/// `SystemTime::now()` as seconds and nanoseconds since the unix epoch
/// (`None` for a clock set before it). Reads the clock, so nothing is
/// promised of the result.
#[verifier::external_body]
fn unix_time() -> Option<(u64, u32)> {
    std::time::SystemTime::now()
        .duration_since(std::time::UNIX_EPOCH)
        .ok()
        .map(|d| (d.as_secs(), d.subsec_nanos()))
}

/// Seconds since the unix epoch, 0 for a clock set before it.
pub fn unix_now() -> u64 {
    match unix_time() {
        Some((s, _)) => s,
        None => 0,
    }
}

/// An id from the given time: `"<secs>-<nanos>"`.
pub fn unique_id_at(secs: u64, nanos: u32) -> (r: String)
    ensures
        r@ == spec_unique_id(secs, nanos),
{
    let a = concat(u64_to_string(secs).as_str(), "-");
    concat(a.as_str(), u64_to_string(nanos as u64).as_str())
}

/// A fresh id from the clock (`"0-0"` for a clock set before the epoch).
pub fn unique_id() -> (r: String)
    ensures
        exists|s: u64, n: u32| r@ == spec_unique_id(s, n),
{
    let (s, n) = match unix_time() {
        Some(t) => t,
        None => (0, 0),
    };
    unique_id_at(s, n)
}

impl HistoryEntry {
    /// Builds a history entry from a just-finished batch, with the given id
    /// and finishing time. `None` if `items` is empty or nothing in it has
    /// reached a terminal state; otherwise the terminal items' records, in
    /// order.
    pub fn from_batch_at(
        playlist: &PlaylistInfo,
        items: &[DownloadItem],
        id: String,
        finished_at: u64,
    ) -> (r: Option<Self>)
        ensures
            match r {
                Some(e) => {
                    &&& recorded_videos(items@).len() > 0
                    &&& e.id == id
                    &&& e.title == playlist.title
                    &&& e.source_url == playlist.source_url
                    &&& e.uploader == playlist.uploader
                    &&& e.is_playlist == playlist.is_playlist
                    &&& e.finished_at == finished_at
                    &&& e.videos@ == recorded_videos(items@)
                },
                None => recorded_videos(items@).len() == 0,
            },
    {
        if items.len() == 0 {
            return None;
        }
        let mut videos: Vec<HistoryVideoEntry> = Vec::new();
        let mut i: usize = 0;
        assert(items@.take(0) =~= Seq::<DownloadItem>::empty());
        while i < items.len()
            invariant
                i <= items@.len(),
                videos@ == recorded_videos(items@.take(i as int)),
            decreases items@.len() - i,
        {
            let item = &items[i];
            assert(items@.take(i + 1).drop_last() =~= items@.take(i as int));
            assert(items@.take(i + 1).last() == *item);
            match HistoryOutcome::from_state(&item.state) {
                Some(outcome) => {
                    videos.push(
                        HistoryVideoEntry {
                            title: item.video.title.clone(),
                            uploader: clone_opt_string(&item.video.uploader),
                            duration_secs: item.video.duration_secs,
                            filesize_bytes: item.video.filesize_bytes,
                            url: item.video.url.clone(),
                            outcome,
                        },
                    );
                },
                None => {},
            }
            i = i + 1;
        }
        assert(items@.take(items@.len() as int) =~= items@);
        if videos.len() == 0 {
            return None;
        }
        Some(
            HistoryEntry {
                id,
                title: playlist.title.clone(),
                source_url: playlist.source_url.clone(),
                uploader: clone_opt_string(&playlist.uploader),
                is_playlist: playlist.is_playlist,
                finished_at,
                videos,
            },
        )
    }

    /// Builds a history entry from a just-finished batch, stamped with the
    /// current time. `None` if `items` is empty or nothing in it has reached
    /// a terminal state yet -- never call this before the batch is done.
    pub fn from_batch(playlist: &PlaylistInfo, items: &[DownloadItem]) -> (r: Option<Self>)
        ensures
            match r {
                Some(e) => {
                    &&& recorded_videos(items@).len() > 0
                    &&& e.title == playlist.title
                    &&& e.source_url == playlist.source_url
                    &&& e.uploader == playlist.uploader
                    &&& e.is_playlist == playlist.is_playlist
                    &&& e.videos@ == recorded_videos(items@)
                },
                None => recorded_videos(items@).len() == 0,
            },
    {
        let (secs, nanos) = match unix_time() {
            Some(t) => t,
            None => (0, 0),
        };
        HistoryEntry::from_batch_at(playlist, items, unique_id_at(secs, nanos), secs)
    }

    /// A lone-video batch: not a playlist, and exactly one video.
    pub fn is_single_video(&self) -> (b: bool)
        ensures
            b == (!self.is_playlist && self.videos@.len() == 1),
    {
        !self.is_playlist && self.videos.len() == 1
    }

    pub fn done_count(&self) -> (n: usize)
        ensures
            n == count_done(self.videos@),
    {
        let mut n: usize = 0;
        let mut i: usize = 0;
        assert(self.videos@.take(0) =~= Seq::<HistoryVideoEntry>::empty());
        while i < self.videos.len()
            invariant
                i <= self.videos@.len(),
                n == count_done(self.videos@.take(i as int)),
                n <= i,
            decreases self.videos@.len() - i,
        {
            assert(self.videos@.take(i + 1).drop_last() =~= self.videos@.take(i as int));
            if let HistoryOutcome::Done = self.videos[i].outcome {
                n = n + 1;
            }
            i = i + 1;
        }
        assert(self.videos@.take(self.videos@.len() as int) =~= self.videos@);
        n
    }

    pub fn failed_count(&self) -> (n: usize)
        ensures
            n == count_failed(self.videos@),
    {
        let mut n: usize = 0;
        let mut i: usize = 0;
        assert(self.videos@.take(0) =~= Seq::<HistoryVideoEntry>::empty());
        while i < self.videos.len()
            invariant
                i <= self.videos@.len(),
                n == count_failed(self.videos@.take(i as int)),
                n <= i,
            decreases self.videos@.len() - i,
        {
            assert(self.videos@.take(i + 1).drop_last() =~= self.videos@.take(i as int));
            if let HistoryOutcome::Failed(_) = self.videos[i].outcome {
                n = n + 1;
            }
            i = i + 1;
        }
        assert(self.videos@.take(self.videos@.len() as int) =~= self.videos@);
        n
    }

    /// `"2026-08-19 14:32 UTC"`: deliberately UTC rather than local time.
    pub fn finished_at_label(&self) -> (r: String)
        ensures
            r@ == spec_format_unix_utc(self.finished_at),
    {
        format_unix_utc(self.finished_at)
    }
}

// ---------------------------------------------------------------------------
// The history list
// ---------------------------------------------------------------------------

/// The most batches the history keeps.
pub const MAX_ENTRIES: usize = 200;

/// Where the history file lives for a data directory: `history.json` in
/// it, joined as on Windows (`windows`) or on Unix; none without one.
pub open spec fn spec_history_path(windows: bool, data_dir: Option<Seq<char>>) -> Option<Seq<char>> {
    match data_dir {
        Some(d) => Some(path_join_on(windows, d, "history.json"@)),
        None => None,
    }
}

/// `history.json` in the app's data directory, if there is one.
pub fn history_path_in(data_dir: Option<String>, windows: bool) -> (r: Option<String>)
    ensures
        opt_view(r) == spec_history_path(windows, opt_view(data_dir)),
{
    match data_dir {
        Some(d) => Some(join_path_on(windows, d.as_str(), "history.json")),
        None => None,
    }
}

/// Where the history is kept: `history.json` in the app's data directory.
pub fn history_path() -> (r: Option<String>)
    ensures
        r is Some ==> exists|w: bool, d: Seq<char>| opt_view(r) == spec_history_path(w, Some(d)),
{
    history_path_in(project_dirs_data_dir(), target_is_windows())
}

/// The history file and the download archive share the app's data
/// directory: with a data directory, each is that directory joined with
/// its own file name, on either platform.
pub proof fn lemma_history_and_archive_share_data_dir(windows: bool, data_dir: Seq<char>, output_dir: Seq<char>)
    ensures
        spec_history_path(windows, Some(data_dir)) == Some(path_join_on(windows, data_dir, "history.json"@)),
        spec_archive_path(windows, Some(data_dir), output_dir) == path_join_on(
            windows,
            data_dir,
            "download_archive.txt"@,
        ),
{
}

/// The history after recording `entry`: it goes first, and only the newest
/// `MAX_ENTRIES` batches are kept.
pub open spec fn spec_with_entry(entries: Seq<HistoryEntry>, entry: HistoryEntry) -> Seq<
    HistoryEntry,
> {
    let l = seq![entry] + entries;
    if l.len() > 200 {
        l.take(200)
    } else {
        l
    }
}

/// Records one finished batch, newest-first, trimming anything past
/// `MAX_ENTRIES`.
pub fn push_entry(entries: &mut Vec<HistoryEntry>, entry: HistoryEntry)
    ensures
        final(entries)@ == spec_with_entry(old(entries)@, entry),
{
    let ghost before = entries@;
    entries.insert(0, entry);
    assert(entries@ =~= seq![entry] + before);
    if entries.len() > MAX_ENTRIES {
        entries.truncate(MAX_ENTRIES);
    }
}

/// Recording a batch puts it first, keeps every earlier batch after it in
/// the same order, and never lets the history grow past `MAX_ENTRIES`.
pub proof fn lemma_history_newest_first_and_capped(entries: Seq<HistoryEntry>, entry: HistoryEntry)
    ensures
        spec_with_entry(entries, entry)[0] == entry,
        spec_with_entry(entries, entry).len() <= 200,
        spec_with_entry(entries, entry).len() == if entries.len() >= 200 {
            200
        } else {
            entries.len() + 1
        },
        forall|i: int|
            0 <= i < spec_with_entry(entries, entry).len() - 1 ==> #[trigger] spec_with_entry(
                entries,
                entry,
            )[i + 1] == entries[i],
{
}

// ---------------------------------------------------------------------------
// Dates
// ---------------------------------------------------------------------------

/// Howard Hinnant's `civil_from_days`: days since 1970-01-01 to the
/// proleptic Gregorian (year, month, day).
pub open spec fn spec_civil_from_days(days: int) -> (int, int, int) {
    let z = days + 719468;
    let era = z / 146097;
    let doe = z - era * 146097;
    let yoe = (doe - doe / 1460 + doe / 36524 - doe / 146096) / 365;
    let y = yoe + era * 400;
    let doy = doe - (365 * yoe + yoe / 4 - yoe / 100);
    let mp = (5 * doy + 2) / 153;
    let d = doy - (153 * mp + 2) / 5 + 1;
    let m = if mp < 10 { mp + 3 } else { mp - 9 };
    (if m <= 2 { y + 1 } else { y }, m, d)
}

/// Facts about one 400-year era that keep every step of `civil_from_days`
/// in range: the year of the era is below 400 and the day of that
/// (March-based) year is below 366.
proof fn lemma_era_year_bounds(doe: int)
    requires
        0 <= doe <= 146096,
    ensures
        ({
            let yoe = (doe - doe / 1460 + doe / 36524 - doe / 146096) / 365;
            &&& 0 <= yoe <= 399
            &&& 365 * yoe + yoe / 4 - yoe / 100 <= doe
            &&& doe - (365 * yoe + yoe / 4 - yoe / 100) <= 365
        }),
{
    let a = doe / 1460;
    let b = doe / 36524;
    let c = doe / 146096;
    let t = doe - a + b - c;
    let yoe = t / 365;
    assert(0 <= yoe <= 399 && 365 * yoe + yoe / 4 - yoe / 100 <= doe && doe - (365 * yoe
        + yoe / 4 - yoe / 100) <= 365) by (nonlinear_arith)
        requires
            0 <= doe <= 146096,
            a == doe / 1460,
            b == doe / 36524,
            c == doe / 146096,
            t == doe - a + b - c,
            yoe == t / 365,
    ;
}

/// Start of the `y`-th (March-based) year of a 400-year era, in days from
/// the era's start.
pub open spec fn year_start(y: int) -> int {
    365 * y + y / 4 - y / 100
}

/// End (exclusive) of the `y`-th year of an era: the next year's start, or
/// the era's length for the last year.
pub open spec fn year_end(y: int) -> int {
    if y >= 399 {
        146097
    } else {
        year_start(y + 1)
    }
}

/// The year of the era that `civil_from_days` computes for day `doe`.
pub open spec fn year_of_era(doe: int) -> int {
    (doe - doe / 1460 + doe / 36524 - doe / 146096) / 365
}

proof fn lemma_year_of_era_exact(doe: int)
    requires
        0 <= doe <= 146096,
    ensures
        0 <= year_of_era(doe) <= 399,
        year_start(year_of_era(doe)) <= doe < year_end(year_of_era(doe)),
{
    let a = doe / 1460;
    let b = doe / 36524;
    let c = doe / 146096;
    let t = doe - a + b - c;
    let y = t / 365;
    let y1 = y + 1;
    assert(0 <= y <= 399 && 365 * y + y / 4 - y / 100 <= doe && (y >= 399 || doe < 365 * y1 + y1
        / 4 - y1 / 100)) by (nonlinear_arith)
        requires
            0 <= doe <= 146096,
            a == doe / 1460,
            b == doe / 36524,
            c == doe / 146096,
            t == doe - a + b - c,
            y == t / 365,
            y1 == y + 1,
    ;
}

/// Whether `y` is a leap year of the proleptic Gregorian calendar.
pub open spec fn is_leap(y: int) -> bool {
    y % 4 == 0 && (y % 100 != 0 || y % 400 == 0)
}

/// How many days month `m` (1-12) of year `y` has.
pub open spec fn days_in_month(y: int, m: int) -> int {
    if m == 2 {
        if is_leap(y) {
            29
        } else {
            28
        }
    } else if m == 4 || m == 6 || m == 9 || m == 11 {
        30
    } else {
        31
    }
}

/// The calendar date after `(y, m, d)`.
pub open spec fn next_date(date: (int, int, int)) -> (int, int, int) {
    let (y, m, d) = date;
    if d < days_in_month(y, m) {
        (y, m, d + 1)
    } else if m < 12 {
        (y, m + 1, 1)
    } else {
        (y + 1, 1, 1)
    }
}

/// Whether `(y, m, d)` is a real date.
pub open spec fn valid_date(date: (int, int, int)) -> bool {
    1 <= date.1 <= 12 && 1 <= date.2 <= days_in_month(date.0, date.1)
}

/// Start of the `k`-th month of a March-based year, in days.
pub open spec fn month_start(k: int) -> int {
    (153 * k + 2) / 5
}

/// The month (0 = March) of day `doy` of a March-based year.
pub open spec fn month_of_year(doy: int) -> int {
    (5 * doy + 2) / 153
}

/// The date of day `doy` of year `yoe` of era `era`.
pub open spec fn date_of(era: int, yoe: int, doy: int) -> (int, int, int) {
    let mp = month_of_year(doy);
    let d = doy - month_start(mp) + 1;
    let m = if mp < 10 { mp + 3 } else { mp - 9 };
    (if m <= 2 { yoe + era * 400 + 1 } else { yoe + era * 400 }, m, d)
}

proof fn lemma_month_exact(doy: int)
    requires
        0 <= doy <= 365,
    ensures
        0 <= month_of_year(doy) <= 11,
        month_start(month_of_year(doy)) <= doy < month_start(month_of_year(doy) + 1),
{
    let mp = (5 * doy + 2) / 153;
    let a = (153 * mp + 2) / 5;
    let b = (153 * (mp + 1) + 2) / 5;
    assert(0 <= mp <= 11 && a <= doy < b) by (nonlinear_arith)
        requires
            0 <= doy <= 365,
            mp == (5 * doy + 2) / 153,
            a == (153 * mp + 2) / 5,
            b == (153 * (mp + 1) + 2) / 5,
    ;
}

proof fn lemma_month_starts()
    ensures
        month_start(0) == 0,
        month_start(1) == 31,
        month_start(2) == 61,
        month_start(3) == 92,
        month_start(4) == 122,
        month_start(5) == 153,
        month_start(6) == 184,
        month_start(7) == 214,
        month_start(8) == 245,
        month_start(9) == 275,
        month_start(10) == 306,
        month_start(11) == 337,
        month_start(12) == 367,
{
}

/// The month a day falls in is the only one whose range holds it.
proof fn lemma_month_unique(doy: int, k: int)
    requires
        0 <= doy <= 365,
        0 <= k <= 11,
        month_start(k) <= doy < month_start(k + 1),
    ensures
        month_of_year(doy) == k,
{
    lemma_month_exact(doy);
    lemma_month_starts();
}

/// Year starts grow: every (March-based) year of an era is 365 or 366 days,
/// 366 exactly when the February it ends with is a leap one.
proof fn lemma_year_length(y: int)
    requires
        0 <= y <= 399,
    ensures
        year_end(y) - year_start(y) == if is_leap(y + 1) { 366int } else { 365int },
{
}

proof fn lemma_year_unique(doe: int, y: int)
    requires
        0 <= doe <= 146096,
        0 <= y <= 399,
        year_start(y) <= doe < year_end(y),
    ensures
        year_of_era(doe) == y,
{
    lemma_year_of_era_exact(doe);
    let x = year_of_era(doe);
    if x < y {
        lemma_year_start_mono(x + 1, y);
    } else if y < x {
        lemma_year_start_mono(y + 1, x);
    }
}

proof fn lemma_year_start_mono(a: int, b: int)
    requires
        0 <= a <= b <= 400,
    ensures
        year_start(a) <= year_start(b),
    decreases b - a,
{
    if a < b {
        lemma_year_start_mono(a + 1, b);
    }
}

proof fn lemma_leap_shift(x: int, era: int)
    ensures
        is_leap(x + era * 400) == is_leap(x),
{
    let y = x + era * 400;
    assert(y == 4 * (era * 100) + x);
    assert(y == 100 * (era * 4) + x);
    assert(y == 400 * era + x);
    vstd::arithmetic::div_mod::lemma_mod_multiples_vanish(era * 100, x, 4);
    vstd::arithmetic::div_mod::lemma_mod_multiples_vanish(era * 4, x, 100);
    vstd::arithmetic::div_mod::lemma_mod_multiples_vanish(era, x, 400);
}

/// Inside one year, the next day's date is the day after.
proof fn lemma_next_within_year(era: int, yoe: int, doy: int)
    requires
        0 <= yoe <= 399,
        0 <= doy,
        doy + 1 < year_end(yoe) - year_start(yoe),
    ensures
        date_of(era, yoe, doy + 1) == next_date(date_of(era, yoe, doy)),
        valid_date(date_of(era, yoe, doy)),
{
    lemma_year_length(yoe);
    lemma_month_exact(doy);
    lemma_month_starts();
    lemma_leap_shift(yoe + 1, era);
    let mp = month_of_year(doy);
    if doy + 1 < month_start(mp + 1) {
        lemma_month_unique(doy + 1, mp);
    } else {
        lemma_month_unique(doy + 1, mp + 1);
    }
}

/// The last day of a year is followed by March 1 of the next.
proof fn lemma_next_across_years(era: int, yoe: int)
    requires
        0 <= yoe <= 399,
    ensures
        ({
            let last = year_end(yoe) - year_start(yoe) - 1;
            &&& valid_date(date_of(era, yoe, last))
            &&& next_date(date_of(era, yoe, last)) == if yoe < 399 {
                date_of(era, yoe + 1, 0)
            } else {
                date_of(era + 1, 0, 0)
            }
        }),
{
    lemma_year_length(yoe);
    let last = year_end(yoe) - year_start(yoe) - 1;
    lemma_month_starts();
    lemma_month_unique(last, 11);
    lemma_month_unique(0, 0);
    lemma_leap_shift(yoe + 1, era);
}

/// Consecutive days get consecutive dates: the date of the day after `days`
/// is the calendar's next date, and every date produced is a real one.
/// With day 0 being 1970-01-01, this pins `spec_civil_from_days` down as
/// the proleptic Gregorian calendar.
pub proof fn lemma_civil_from_days_next(days: int)
    ensures
        spec_civil_from_days(0) == (1970int, 1int, 1int),
        valid_date(spec_civil_from_days(days)),
        spec_civil_from_days(days + 1) == next_date(spec_civil_from_days(days)),
{
    assert(spec_civil_from_days(0) == (1970int, 1int, 1int)) by {
        assert(719468int / 146097 == 4);
        assert(year_of_era(135080) == 369);
        assert(month_of_year(306) == 10);
        assert(month_start(10) == 306);
    }
    let z = days + 719468;
    let era = z / 146097;
    let doe = z - era * 146097;
    assert(0 <= doe <= 146096);
    lemma_year_of_era_exact(doe);
    let yoe = year_of_era(doe);
    let doy = doe - year_start(yoe);
    assert(spec_civil_from_days(days) == date_of(era, yoe, doy));
    let z1 = z + 1;
    let era1 = z1 / 146097;
    let doe1 = z1 - era1 * 146097;
    assert(0 <= doe1 <= 146096);
    lemma_year_of_era_exact(doe1);
    let yoe1 = year_of_era(doe1);
    let doy1 = doe1 - year_start(yoe1);
    assert(spec_civil_from_days(days + 1) == date_of(era1, yoe1, doy1));
    if doe < 146096 {
        assert(era1 == era && doe1 == doe + 1);
    } else {
        assert(era1 == era + 1 && doe1 == 0);
    }
    lemma_year_length(yoe);
    if doe + 1 < year_end(yoe) {
        lemma_year_unique(doe1, yoe);
        lemma_next_within_year(era, yoe, doy);
    } else {
        lemma_next_across_years(era, yoe);
        if yoe < 399 {
            lemma_year_unique(doe1, yoe + 1);
        } else {
            lemma_year_unique(doe1, 0);
        }
    }
}

/// Days since the unix epoch -> (year, month, day).
pub fn civil_from_days(days: i64) -> (r: (i64, u32, u32))
    requires
        days <= i64::MAX - 719468,
    ensures
        (r.0 as int, r.1 as int, r.2 as int) == spec_civil_from_days(days as int),
{
    let z: i64 = days + 719468;
    let era: i64 = if z >= 0 {
        (z as u64 / 146097) as i64
    } else {
        let q = ((-(z + 1)) as u64 + 146097) / 146097;
        -(q as i64)
    };
    assert(era as int == (z as int) / 146097) by (nonlinear_arith)
        requires
            z >= 0 ==> era as int == (z as int) / 146097,
            z < 0 ==> era as int == -((-(z as int + 1) + 146097) / 146097),
    ;
    let doe: u64 = (z - era * 146097) as u64;
    proof {
        lemma_era_year_bounds(doe as int);
    }
    let yoe: u64 = (doe - doe / 1460 + doe / 36524 - doe / 146096) / 365;
    let y: i64 = yoe as i64 + era * 400;
    let doy: u64 = doe - (365 * yoe + yoe / 4 - yoe / 100);
    let mp: u64 = (5 * doy + 2) / 153;
    assert((153 * mp + 2) / 5 <= doy) by (nonlinear_arith)
        requires
            mp == (5 * doy + 2) / 153,
            doy <= 365,
    ;
    assert(mp <= 11) by (nonlinear_arith)
        requires
            mp == (5 * doy + 2) / 153,
            doy <= 365,
    ;
    let d: u32 = (doy - (153 * mp + 2) / 5 + 1) as u32;
    let m: u32 = if mp < 10 { (mp + 3) as u32 } else { (mp - 9) as u32 };
    let y = if m <= 2 { y + 1 } else { y };
    (y, m, d)
}

/// `"YYYY-MM-DD HH:MM UTC"` for a unix timestamp.
pub open spec fn spec_format_unix_utc(secs: u64) -> Seq<char> {
    let s = as_i64_bits(secs);
    let days = s / 86400;
    let tod = s % 86400;
    let (y, m, d) = spec_civil_from_days(days);
    year_text(y) + "-"@ + dec2(m as nat) + "-"@ + dec2(d as nat) + " "@ + dec2((tod / 3600) as nat)
        + ":"@ + dec2(((tod % 3600) / 60) as nat) + " UTC"@
}

/// A year as `{:04}` renders it: at least four digits, zero-padded, with a
/// leading `-` for negative years.
pub open spec fn year_text(y: int) -> Seq<char> {
    if y >= 0 {
        dec_pad(y as nat, 4)
    } else {
        "-"@ + dec_pad((-y) as nat, 3)
    }
}

fn year_text_exec(y: i64) -> (r: String)
    ensures
        r@ == year_text(y as int),
{
    if y >= 0 {
        u64_to_string_pad(y as u64, 4)
    } else {
        let a = u64_to_string_pad((-(y + 1)) as u64 + 1, 3);
        concat("-", a.as_str())
    }
}

/// The `i64` with the same bits as `secs` (what `secs as i64` gives).
pub open spec fn as_i64_bits(secs: u64) -> int {
    if secs <= i64::MAX {
        secs as int
    } else {
        secs - 0x1_0000_0000_0000_0000
    }
}

/// Formats a unix timestamp as `"YYYY-MM-DD HH:MM UTC"`.
pub fn format_unix_utc(secs: u64) -> (r: String)
    ensures
        r@ == spec_format_unix_utc(secs),
{
    let s: i64 = if secs <= i64::MAX as u64 {
        secs as i64
    } else {
        -((u64::MAX - secs) as i64) - 1
    };
    assert(s as int == as_i64_bits(secs));
    let (days, tod): (i64, u64) = if s >= 0 {
        ((s as u64 / 86400) as i64, s as u64 % 86400)
    } else {
        let k: u64 = (-(s + 1)) as u64;
        (-((k / 86400) as i64) - 1, 86399 - k % 86400)
    };
    assert(days as int == (s as int) / 86400 && tod as int == (s as int) % 86400) by (nonlinear_arith)
        requires
            s >= 0 ==> days as int == (s as int) / 86400 && tod as int == (s as int) % 86400,
            s < 0 ==> days as int == -((-(s as int + 1)) / 86400) - 1 && tod as int == 86399 - (-(
            s as int + 1)) % 86400,
    ;
    let hour: u64 = tod / 3600;
    let minute: u64 = (tod % 3600) / 60;
    let (year, month, day) = civil_from_days(days);
    let mut out = year_text_exec(year);
    out = concat(out.as_str(), "-");
    out = concat(out.as_str(), u64_to_string2(month as u64).as_str());
    out = concat(out.as_str(), "-");
    out = concat(out.as_str(), u64_to_string2(day as u64).as_str());
    out = concat(out.as_str(), " ");
    out = concat(out.as_str(), u64_to_string2(hour).as_str());
    out = concat(out.as_str(), ":");
    out = concat(out.as_str(), u64_to_string2(minute).as_str());
    concat(out.as_str(), " UTC")
}

} // verus!
