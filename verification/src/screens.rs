//! What the screens show. The desktop and terminal front ends build their
//! widgets outside the library; the text, icons, colours and enabled
//! controls those widgets show for a given state are decided here.

use vstd::prelude::*;

use crate::config::Settings;
use crate::downloader::join_with;
use crate::gui::{GuiState, Screen, StatusKind, Tab, UpdateStatus};
use crate::history::{
    HistoryEntry, HistoryOutcome, HistoryVideoEntry, count_done, count_failed, spec_format_unix_utc,
    spec_size_label,
};
use crate::models::{
    AudioFormat, DownloadItem, DownloadProgress, DownloadState, MediaMode, PlaylistInfo, Video,
    VideoContainer, VideoQuality, opt_view, spec_duration_label,
};
use crate::session::all_terminal;
use crate::settings_fields::SettingsField;
use crate::text::{
    concat, dec, pad_left, pad_left_exec, pad_right, pad_right_exec, round_tenths, round_tenths_exec,
    trim, trim_str, u128_to_string, u64_to_string, views,
};
use crate::tui::{App, MessageKind, Screen as TuiScreen};
use crate::ytdlp::{BinaryStatus, human_bytes};

verus! {

/// The colour a row or a line is drawn in.
#[derive(Debug, Clone, Copy, PartialEq, Eq, Structural)]
pub enum Shade {
    /// The theme's ordinary text colour.
    Plain,
    Gray,
    Yellow,
    Green,
    Blue,
    Cyan,
    Red,
}

// ---------------------------------------------------------------------------
// The download queue
// ---------------------------------------------------------------------------

/// Done or skipped: the item got its file.
pub open spec fn finished_pick() -> spec_fn(DownloadState) -> bool {
    |s: DownloadState| s is Done || s is Skipped
}

pub open spec fn failed_pick() -> spec_fn(DownloadState) -> bool {
    |s: DownloadState| s is Failed
}

pub open spec fn cancelled_pick() -> spec_fn(DownloadState) -> bool {
    |s: DownloadState| s is Cancelled
}

/// How many of `items` are in a state that `pick` accepts.
pub open spec fn count_items(items: Seq<DownloadItem>, pick: spec_fn(DownloadState) -> bool) -> nat
    decreases items.len(),
{
    if items.len() == 0 {
        0
    } else {
        count_items(items.drop_last(), pick) + if pick(items.last().state) {
            1nat
        } else {
            0nat
        }
    }
}

/// A progress figure in tenths of a percent, capped at 100%.
pub open spec fn capped_tenths(t: u128) -> nat {
    if t > 1000 {
        1000
    } else {
        t as nat
    }
}

/// One item's own progress in tenths of a percent: its live figure while
/// downloading, the last known one while paused (rather than dropping back
/// to 0), 95% while post-processing, and full once it reached a final
/// state.
pub open spec fn spec_item_tenths(item: DownloadItem) -> nat {
    match item.state {
        DownloadState::Downloading(p) => capped_tenths(p.percent_tenths),
        DownloadState::Paused => match item.last_progress {
            Some(p) => capped_tenths(p.percent_tenths),
            None => 0,
        },
        DownloadState::PostProcessing => 950,
        DownloadState::Queued | DownloadState::Starting => 0,
        _ => 1000,
    }
}

fn capped(t: u128) -> (r: u128)
    ensures
        r as nat == capped_tenths(t),
{
    if t > 1000 {
        1000
    } else {
        t
    }
}

pub fn item_tenths(item: &DownloadItem) -> (t: u128)
    ensures
        t as nat == spec_item_tenths(*item),
        t <= 1000,
{
    match &item.state {
        DownloadState::Downloading(p) => capped(p.percent_tenths),
        DownloadState::Paused => match &item.last_progress {
            Some(p) => capped(p.percent_tenths),
            None => 0,
        },
        DownloadState::PostProcessing => 950,
        DownloadState::Queued | DownloadState::Starting => 0,
        DownloadState::Done | DownloadState::Skipped | DownloadState::Cancelled
        | DownloadState::Failed(_) => 1000,
    }
}

pub open spec fn sum_tenths(items: Seq<DownloadItem>) -> nat
    decreases items.len(),
{
    if items.len() == 0 {
        0
    } else {
        sum_tenths(items.drop_last()) + spec_item_tenths(items.last())
    }
}

/// The mean of the items' progress in whole percent, to the nearest with
/// ties to even; 0 for an empty queue.
pub open spec fn spec_overall_percent(items: Seq<DownloadItem>) -> nat {
    if items.len() == 0 {
        0
    } else {
        round_tenths(sum_tenths(items), 100 * items.len())
    }
}

/// Every item contributes at most 100%, and exactly 100% once final.
pub proof fn lemma_sum_tenths_bounds(items: Seq<DownloadItem>)
    ensures
        sum_tenths(items) <= 1000 * items.len(),
        all_terminal(items) ==> sum_tenths(items) == 1000 * items.len(),
    decreases items.len(),
{
    if items.len() > 0 {
        lemma_sum_tenths_bounds(items.drop_last());
        if all_terminal(items) {
            assert forall|i: int| 0 <= i < items.drop_last().len() implies #[trigger] items.drop_last()[i].state.spec_is_terminal() by {
                assert(items.drop_last()[i] == items[i]);
            }
            assert(items.last().state.spec_is_terminal());
        }
    }
}

/// The overall figure never exceeds 100%, and a non-empty queue whose
/// items are all final shows exactly 100%.
pub proof fn lemma_overall_percent_bounds(items: Seq<DownloadItem>)
    ensures
        spec_overall_percent(items) <= 100,
        items.len() > 0 && all_terminal(items) ==> spec_overall_percent(items) == 100,
{
    lemma_sum_tenths_bounds(items);
    if items.len() > 0 {
        let s = sum_tenths(items);
        let n = items.len();
        let d = 100 * n;
        let q = (s * 10) / d;
        let r = (s * 10) % d;
        assert(q * d + r == s * 10 && 0 <= r < d) by (nonlinear_arith)
            requires
                d > 0,
                q == (s * 10) / d,
                r == (s * 10) % d,
        ;
        assert(q <= 100) by (nonlinear_arith)
            requires
                q * d + r == s * 10,
                0 <= r,
                s <= 1000 * n,
                d == 100 * n,
                n > 0,
        ;
        assert(q == 100 ==> r == 0) by (nonlinear_arith)
            requires
                q * d + r == s * 10,
                s <= 1000 * n,
                d == 100 * n,
                r >= 0,
        ;
        if all_terminal(items) {
            assert(q == 100 && r == 0) by (nonlinear_arith)
                requires
                    q * d + r == s * 10,
                    0 <= r < d,
                    s == 1000 * n,
                    d == 100 * n,
                    n > 0,
            ;
        }
    }
}

/// The whole queue at a glance.
#[derive(Debug, Clone, Copy, PartialEq, Eq, Structural)]
pub struct QueueSummary {
    pub total: usize,
    pub finished: usize,
    pub failed: usize,
    pub cancelled: usize,
    pub overall_percent: u128,
}

pub fn queue_summary(items: &Vec<DownloadItem>) -> (r: QueueSummary)
    ensures
        r.total == items@.len(),
        r.finished == count_items(items@, finished_pick()),
        r.failed == count_items(items@, failed_pick()),
        r.cancelled == count_items(items@, cancelled_pick()),
        r.overall_percent == spec_overall_percent(items@),
{
    let mut finished: usize = 0;
    let mut failed: usize = 0;
    let mut cancelled: usize = 0;
    let mut sum: u128 = 0;
    let mut i: usize = 0;
    assert(items@.take(0) =~= Seq::<DownloadItem>::empty());
    while i < items.len()
        invariant
            i <= items@.len(),
            finished == count_items(items@.take(i as int), finished_pick()),
            failed == count_items(items@.take(i as int), failed_pick()),
            cancelled == count_items(items@.take(i as int), cancelled_pick()),
            sum == sum_tenths(items@.take(i as int)),
            finished <= i,
            failed <= i,
            cancelled <= i,
            sum <= 1000 * i,
        decreases items@.len() - i,
    {
        let ghost pre = items@.take(i as int);
        let ghost next = items@.take(i + 1);
        assert(next.drop_last() =~= pre);
        assert(next.last() == items@[i as int]);
        match &items[i].state {
            DownloadState::Done | DownloadState::Skipped => finished = finished + 1,
            DownloadState::Failed(_) => failed = failed + 1,
            DownloadState::Cancelled => cancelled = cancelled + 1,
            _ => {},
        }
        let t = item_tenths(&items[i]);
        sum = sum + t;
        i = i + 1;
    }
    assert(items@.take(items@.len() as int) =~= items@);
    let overall = if items.len() == 0 {
        0
    } else {
        round_tenths_exec(sum, 100 * (items.len() as u128))
    };
    QueueSummary { total: items.len(), finished, failed, cancelled, overall_percent: overall }
}

/// The stats line under the overall bar, e.g.
/// `"3/10 done   1 failed   0 cancelled   42%"`.
pub open spec fn spec_summary_line(s: QueueSummary) -> Seq<char> {
    dec(s.finished as nat) + "/"@ + dec(s.total as nat) + " done   "@ + dec(s.failed as nat)
        + " failed   "@ + dec(s.cancelled as nat) + " cancelled   "@ + dec(
        s.overall_percent as nat,
    ) + "%"@
}

pub fn summary_line(s: &QueueSummary) -> (r: String)
    ensures
        r@ == spec_summary_line(*s),
{
    let a = concat(u64_to_string(s.finished as u64).as_str(), "/");
    let b = concat(a.as_str(), u64_to_string(s.total as u64).as_str());
    let c = concat(b.as_str(), " done   ");
    let d = concat(c.as_str(), u64_to_string(s.failed as u64).as_str());
    let e = concat(d.as_str(), " failed   ");
    let f = concat(e.as_str(), u64_to_string(s.cancelled as u64).as_str());
    let g = concat(f.as_str(), " cancelled   ");
    let h = concat(g.as_str(), u128_to_string(s.overall_percent).as_str());
    concat(h.as_str(), "%")
}

/// The desktop card's wording of the same line, ending in `" overall"`.
pub fn summary_line_overall(s: &QueueSummary) -> (r: String)
    ensures
        r@ == spec_summary_line(*s) + " overall"@,
{
    let l = summary_line(s);
    concat(l.as_str(), " overall")
}

/// The desktop queue's icon and colour for a state.
pub open spec fn spec_state_style(s: DownloadState) -> (Seq<char>, Shade) {
    match s {
        DownloadState::Queued => ("○"@, Shade::Gray),
        DownloadState::Starting => ("▶"@, Shade::Yellow),
        DownloadState::Downloading(_) => ("▼"@, Shade::Yellow),
        DownloadState::PostProcessing => ("~"@, Shade::Yellow),
        DownloadState::Paused => ("‖"@, Shade::Cyan),
        DownloadState::Done => ("✓"@, Shade::Green),
        DownloadState::Skipped => ("−"@, Shade::Blue),
        DownloadState::Cancelled => ("✗"@, Shade::Gray),
        DownloadState::Failed(_) => ("!"@, Shade::Red),
    }
}

pub fn state_style(s: &DownloadState) -> (r: (&'static str, Shade))
    ensures
        (r.0@, r.1) == spec_state_style(*s),
{
    match s {
        DownloadState::Queued => ("○", Shade::Gray),
        DownloadState::Starting => ("▶", Shade::Yellow),
        DownloadState::Downloading(_) => ("▼", Shade::Yellow),
        DownloadState::PostProcessing => ("~", Shade::Yellow),
        DownloadState::Paused => ("‖", Shade::Cyan),
        DownloadState::Done => ("✓", Shade::Green),
        DownloadState::Skipped => ("−", Shade::Blue),
        DownloadState::Cancelled => ("✗", Shade::Gray),
        DownloadState::Failed(_) => ("!", Shade::Red),
    }
}

/// The terminal queue's plain-text icon and colour for a state.
pub open spec fn spec_state_style_plain(s: DownloadState) -> (Seq<char>, Shade) {
    match s {
        DownloadState::Queued => ("o"@, Shade::Gray),
        DownloadState::Starting => (">"@, Shade::Yellow),
        DownloadState::Downloading(_) => ("v"@, Shade::Yellow),
        DownloadState::PostProcessing => ("~"@, Shade::Yellow),
        DownloadState::Paused => ("="@, Shade::Cyan),
        DownloadState::Done => ("+"@, Shade::Green),
        DownloadState::Skipped => ("-"@, Shade::Blue),
        DownloadState::Cancelled => ("x"@, Shade::Gray),
        DownloadState::Failed(_) => ("!"@, Shade::Red),
    }
}

pub fn state_style_plain(s: &DownloadState) -> (r: (&'static str, Shade))
    ensures
        (r.0@, r.1) == spec_state_style_plain(*s),
{
    match s {
        DownloadState::Queued => ("o", Shade::Gray),
        DownloadState::Starting => (">", Shade::Yellow),
        DownloadState::Downloading(_) => ("v", Shade::Yellow),
        DownloadState::PostProcessing => ("~", Shade::Yellow),
        DownloadState::Paused => ("=", Shade::Cyan),
        DownloadState::Done => ("+", Shade::Green),
        DownloadState::Skipped => ("-", Shade::Blue),
        DownloadState::Cancelled => ("x", Shade::Gray),
        DownloadState::Failed(_) => ("!", Shade::Red),
    }
}

/// An optional figure, or `--` when unknown.
pub open spec fn or_dashes(s: Option<Seq<char>>) -> Seq<char> {
    match s {
        Some(v) => v,
        None => "--"@,
    }
}

fn or_dashes_exec(s: &Option<String>) -> (r: String)
    ensures
        r@ == or_dashes(opt_view(*s)),
{
    match s {
        Some(v) => v.clone(),
        None => String::from_str("--"),
    }
}

/// `"{speed}  eta {eta}"`, each `--` when unknown.
pub open spec fn spec_speed_eta(p: DownloadProgress) -> Seq<char> {
    or_dashes(opt_view(p.speed)) + "  eta "@ + or_dashes(opt_view(p.eta))
}

pub fn speed_eta(p: &DownloadProgress) -> (r: String)
    ensures
        r@ == spec_speed_eta(*p),
{
    let a = concat(or_dashes_exec(&p.speed).as_str(), "  eta ");
    concat(a.as_str(), or_dashes_exec(&p.eta).as_str())
}

/// The desktop row's second line after the status: speed and ETA while
/// downloading (the last known ones while paused), the error once failed,
/// nothing otherwise.
pub open spec fn spec_extra_info(item: DownloadItem) -> Seq<char> {
    match item.state {
        DownloadState::Downloading(p) => spec_speed_eta(p),
        DownloadState::Paused => match item.last_progress {
            Some(p) => spec_speed_eta(p),
            None => Seq::empty(),
        },
        DownloadState::Failed(msg) => msg@,
        _ => Seq::empty(),
    }
}

pub fn extra_info(item: &DownloadItem) -> (r: String)
    ensures
        r@ == spec_extra_info(*item),
{
    match &item.state {
        DownloadState::Downloading(p) => speed_eta(p),
        DownloadState::Paused => match &item.last_progress {
            Some(p) => speed_eta(p),
            None => String::new(),
        },
        DownloadState::Failed(msg) => msg.clone(),
        _ => String::new(),
    }
}

/// The desktop row's status line: the state's label, two spaces, then the
/// extra information.
pub fn item_status_line(item: &DownloadItem) -> (r: String)
    ensures
        r@ == item.state.spec_label() + "  "@ + spec_extra_info(*item),
{
    let a = concat(item.state.label().as_str(), "  ");
    concat(a.as_str(), extra_info(item).as_str())
}

/// A queue row's expanded log: its lines one per line, or a note that
/// there is no output yet.
pub open spec fn spec_log_text(log: Seq<String>) -> Seq<char> {
    if log.len() == 0 {
        "No output yet"@
    } else {
        join_with(views(log), "\n"@)
    }
}

pub fn log_text(item: &DownloadItem) -> (r: String)
    ensures
        r@ == spec_log_text(item.log@),
{
    let log = &item.log;
    if log.len() == 0 {
        return String::from_str("No output yet");
    }
    let mut out = log[0].clone();
    let mut i: usize = 1;
    assert(views(log@.take(1)) =~= seq![log@[0]@]);
    while i < log.len()
        invariant
            1 <= i <= log@.len(),
            out@ == join_with(views(log@.take(i as int)), "\n"@),
        decreases log@.len() - i,
    {
        let ghost prev = views(log@.take(i as int));
        let a = concat(out.as_str(), "\n");
        out = concat(a.as_str(), log[i].as_str());
        i = i + 1;
        proof {
            let cur = views(log@.take(i as int));
            assert(cur.drop_last() =~= prev);
            assert(cur.last() == log@[i - 1]@);
        }
    }
    assert(log@.take(log@.len() as int) =~= log@);
    out
}

/// The label of a row's log toggle.
pub fn details_label(expanded: bool) -> (r: &'static str)
    ensures
        r@ == (if expanded {
            "Hide details"@
        } else {
            "Details"@
        }),
{
    if expanded {
        "Hide details"
    } else {
        "Details"
    }
}

/// The terminal queue line: icon, the status padded to ten columns, the
/// title, then speed and ETA while downloading or the error once failed.
pub open spec fn spec_queue_line(item: DownloadItem) -> Seq<char> {
    let extra = match item.state {
        DownloadState::Downloading(p) => "  "@ + spec_speed_eta(p),
        DownloadState::Failed(msg) => "  "@ + msg@,
        _ => Seq::empty(),
    };
    spec_state_style_plain(item.state).0 + " "@ + pad_right(item.state.spec_label(), 10) + " "@
        + item.video.title@ + extra
}

pub fn queue_line(item: &DownloadItem) -> (r: String)
    ensures
        r@ == spec_queue_line(*item),
{
    let extra = match &item.state {
        DownloadState::Downloading(p) => concat("  ", speed_eta(p).as_str()),
        DownloadState::Failed(msg) => concat("  ", msg.as_str()),
        _ => String::new(),
    };
    let (icon, _) = state_style_plain(&item.state);
    let a = concat(icon, " ");
    let b = concat(a.as_str(), pad_right_exec(item.state.label().as_str(), 10).as_str());
    let c = concat(b.as_str(), " ");
    let d = concat(c.as_str(), item.video.title.as_str());
    concat(d.as_str(), extra.as_str())
}

/// The one pause/resume button of a queue row: pause while the item may
/// still run, resume while paused, nothing once it is final.
#[derive(Debug, Clone, Copy, PartialEq, Eq, Structural)]
pub enum PauseControl {
    Pause,
    Resume,
    Hidden,
}

pub open spec fn spec_pause_control(s: DownloadState) -> PauseControl {
    match s {
        DownloadState::Paused => PauseControl::Resume,
        DownloadState::Queued | DownloadState::Starting | DownloadState::Downloading(_)
        | DownloadState::PostProcessing => PauseControl::Pause,
        _ => PauseControl::Hidden,
    }
}

pub fn pause_control(s: &DownloadState) -> (r: PauseControl)
    ensures
        r == spec_pause_control(*s),
{
    match s {
        DownloadState::Paused => PauseControl::Resume,
        DownloadState::Queued | DownloadState::Starting | DownloadState::Downloading(_)
        | DownloadState::PostProcessing => PauseControl::Pause,
        DownloadState::Done | DownloadState::Skipped | DownloadState::Cancelled
        | DownloadState::Failed(_) => PauseControl::Hidden,
    }
}

/// A row shows its cancel button until the item is final.
pub fn shows_cancel(s: &DownloadState) -> (b: bool)
    ensures
        b == !s.spec_is_terminal(),
{
    !s.is_terminal()
}

/// The terminal queue's key hints.
pub open spec fn spec_queue_hints(batch_done: bool) -> Seq<char> {
    if batch_done {
        "All downloads finished   Esc back to list   q quit"@
    } else {
        "Up/Down select   c cancel item   C cancel all   Esc back (keeps running)   q quit"@
    }
}

pub fn queue_hints(batch_done: bool) -> (r: &'static str)
    ensures
        r@ == spec_queue_hints(batch_done),
{
    if batch_done {
        "All downloads finished   Esc back to list   q quit"
    } else {
        "Up/Down select   c cancel item   C cancel all   Esc back (keeps running)   q quit"
    }
}

// ---------------------------------------------------------------------------
// The video list
// ---------------------------------------------------------------------------

/// `"  --  {uploader}"`, or nothing without an uploader.
pub open spec fn uploader_suffix(u: Option<Seq<char>>) -> Seq<char> {
    match u {
        Some(v) => "  --  "@ + v,
        None => Seq::empty(),
    }
}

pub fn uploader_suffix_of(u: &Option<String>) -> (r: String)
    ensures
        r@ == uploader_suffix(opt_view(*u)),
{
    match u {
        Some(v) => concat("  --  ", v.as_str()),
        None => String::new(),
    }
}

/// `"{n} videos, {k} selected{uploader suffix}"`.
pub open spec fn spec_playlist_counts(p: PlaylistInfo, selected: nat) -> Seq<char> {
    dec(p.videos@.len()) + " videos, "@ + dec(selected) + " selected"@ + uploader_suffix(
        opt_view(p.uploader),
    )
}

/// The desktop list's header line under the playlist title.
pub fn playlist_counts(p: &PlaylistInfo, selected: usize) -> (r: String)
    ensures
        r@ == spec_playlist_counts(*p, selected as nat),
{
    let a = concat(u64_to_string(p.videos.len() as u64).as_str(), " videos, ");
    let b = concat(a.as_str(), u64_to_string(selected as u64).as_str());
    let c = concat(b.as_str(), " selected");
    concat(c.as_str(), uploader_suffix_of(&p.uploader).as_str())
}

/// The terminal list's header: the title, then the counts in brackets.
pub fn playlist_header(p: &PlaylistInfo, selected: usize) -> (r: String)
    ensures
        r@ == p.title@ + "   ("@ + spec_playlist_counts(*p, selected as nat) + ")"@,
{
    let a = concat(p.title.as_str(), "   (");
    let b = concat(a.as_str(), playlist_counts(p, selected).as_str());
    concat(b.as_str(), ")")
}

/// A video's size as `human_bytes` renders it, or `--` when unknown.
pub fn video_size_label(v: &Video) -> (r: String)
    ensures
        r@ == spec_size_label(v.filesize_bytes),
{
    match v.filesize_bytes {
        Some(b) => human_bytes(b),
        None => String::from_str("--"),
    }
}

/// The desktop row: `"{index:>3}. {title}  ({length}, {size})"`, without the
/// index part when the video has no playlist position.
pub open spec fn spec_video_row_label(v: Video) -> Seq<char> {
    let index = match v.playlist_index {
        Some(i) => pad_left(dec(i as nat), 3) + ". "@,
        None => Seq::empty(),
    };
    index + v.title@ + "  ("@ + spec_duration_label(v.duration_secs) + ", "@ + spec_size_label(
        v.filesize_bytes,
    ) + ")"@
}

pub fn video_row_label(v: &Video) -> (r: String)
    ensures
        r@ == spec_video_row_label(*v),
{
    let index = match v.playlist_index {
        Some(i) => concat(pad_left_exec(u64_to_string(i), 3).as_str(), ". "),
        None => String::new(),
    };
    let a = concat(index.as_str(), v.title.as_str());
    let b = concat(a.as_str(), "  (");
    let c = concat(b.as_str(), v.duration_label().as_str());
    let d = concat(c.as_str(), ", ");
    let e = concat(d.as_str(), video_size_label(v).as_str());
    concat(e.as_str(), ")")
}

/// The terminal row: a check box, the position right-aligned in three
/// columns (`"  -"` without one), length and size in padded columns, then
/// the title.
pub open spec fn spec_video_line(v: Video, checked: bool) -> Seq<char> {
    let mark = if checked {
        "[x]"@
    } else {
        "[ ]"@
    };
    let index = match v.playlist_index {
        Some(i) => pad_left(dec(i as nat), 3),
        None => "  -"@,
    };
    mark + " "@ + index + "  "@ + pad_right(spec_duration_label(v.duration_secs), 8) + " "@
        + pad_right(spec_size_label(v.filesize_bytes), 9) + " "@ + v.title@
}

pub fn video_line(v: &Video, checked: bool) -> (r: String)
    ensures
        r@ == spec_video_line(*v, checked),
{
    let mark = if checked {
        "[x]"
    } else {
        "[ ]"
    };
    let index = match v.playlist_index {
        Some(i) => pad_left_exec(u64_to_string(i), 3),
        None => String::from_str("  -"),
    };
    let a = concat(mark, " ");
    let b = concat(a.as_str(), index.as_str());
    let c = concat(b.as_str(), "  ");
    let d = concat(c.as_str(), pad_right_exec(v.duration_label().as_str(), 8).as_str());
    let e = concat(d.as_str(), " ");
    let f = concat(e.as_str(), pad_right_exec(video_size_label(v).as_str(), 9).as_str());
    let g = concat(f.as_str(), " ");
    concat(g.as_str(), v.title.as_str())
}

/// What the desktop list says when no row is shown.
pub open spec fn spec_empty_list_text(filter: Seq<char>) -> Seq<char> {
    if filter.len() == 0 {
        "This playlist has no videos"@
    } else {
        "No videos match that filter"@
    }
}

pub fn empty_list_text(filter: &str) -> (r: &'static str)
    ensures
        r@ == spec_empty_list_text(filter@),
{
    if filter.unicode_len() == 0 {
        "This playlist has no videos"
    } else {
        "No videos match that filter"
    }
}

/// The terminal list's title: it says so when a filter matches nothing.
pub open spec fn spec_video_list_title(shown: nat, filter: Seq<char>) -> Seq<char> {
    if shown == 0 && filter.len() != 0 {
        "Videos (no matches)"@
    } else {
        "Videos"@
    }
}

pub fn video_list_title(shown: usize, filter: &str) -> (r: &'static str)
    ensures
        r@ == spec_video_list_title(shown as nat, filter@),
{
    if shown == 0 && filter.unicode_len() != 0 {
        "Videos (no matches)"
    } else {
        "Videos"
    }
}

/// The download button's label, and whether it can be pressed: it names
/// the number of selected videos, and needs at least one.
pub open spec fn spec_download_button(selected: nat) -> (Seq<char>, bool) {
    if selected == 0 {
        ("Download"@, false)
    } else {
        ("Download "@ + dec(selected) + " selected"@, true)
    }
}

pub fn download_button(selected: usize) -> (r: (String, bool))
    ensures
        (r.0@, r.1) == spec_download_button(selected as nat),
{
    if selected == 0 {
        (String::from_str("Download"), false)
    } else {
        let a = concat("Download ", u64_to_string(selected as u64).as_str());
        (concat(a.as_str(), " selected"), true)
    }
}

// ---------------------------------------------------------------------------
// The history screens
// ---------------------------------------------------------------------------

/// A single-video entry and a playlist entry have different icons.
pub open spec fn spec_entry_icon(e: HistoryEntry) -> Seq<char> {
    if !e.is_playlist && e.videos@.len() == 1 {
        "•"@
    } else {
        "▤"@
    }
}

pub fn entry_icon(e: &HistoryEntry) -> (r: &'static str)
    ensures
        r@ == spec_entry_icon(*e),
{
    if e.is_single_video() {
        "•"
    } else {
        "▤"
    }
}

/// `", {n} failed"`, or nothing when none failed.
pub open spec fn failed_suffix(n: nat) -> Seq<char> {
    if n > 0 {
        ", "@ + dec(n) + " failed"@
    } else {
        Seq::empty()
    }
}

fn failed_suffix_of(n: usize) -> (r: String)
    ensures
        r@ == failed_suffix(n as nat),
{
    if n > 0 {
        let a = concat(", ", u64_to_string(n as u64).as_str());
        concat(a.as_str(), " failed")
    } else {
        String::new()
    }
}

/// `"{done}/{total} done{failed suffix}"`.
pub open spec fn spec_done_tally(e: HistoryEntry) -> Seq<char> {
    dec(count_done(e.videos@)) + "/"@ + dec(e.videos@.len()) + " done"@ + failed_suffix(
        count_failed(e.videos@),
    )
}

fn done_tally(e: &HistoryEntry) -> (r: String)
    ensures
        r@ == spec_done_tally(*e),
{
    let a = concat(u64_to_string(e.done_count() as u64).as_str(), "/");
    let b = concat(a.as_str(), u64_to_string(e.videos.len() as u64).as_str());
    let c = concat(b.as_str(), " done");
    concat(c.as_str(), failed_suffix_of(e.failed_count()).as_str())
}

/// The desktop history row: the icon and title, and under it the tally
/// and when the batch finished.
pub fn history_row(e: &HistoryEntry) -> (r: (String, String))
    ensures
        r.0@ == spec_entry_icon(*e) + " "@ + e.title@,
        r.1@ == spec_done_tally(*e) + "   "@ + spec_format_unix_utc(e.finished_at),
{
    let a = concat(entry_icon(e), " ");
    let first = concat(a.as_str(), e.title.as_str());
    let b = concat(done_tally(e).as_str(), "   ");
    let second = concat(b.as_str(), e.finished_at_label().as_str());
    (first, second)
}

/// The terminal history line: icon, finish time padded to sixteen
/// columns, tally, title.
pub open spec fn spec_history_line(e: HistoryEntry) -> Seq<char> {
    spec_entry_icon(e) + " "@ + pad_right(spec_format_unix_utc(e.finished_at), 16) + " "@
        + spec_done_tally(e) + "   "@ + e.title@
}

pub fn history_line(e: &HistoryEntry) -> (r: String)
    ensures
        r@ == spec_history_line(*e),
{
    let a = concat(entry_icon(e), " ");
    let b = concat(a.as_str(), pad_right_exec(e.finished_at_label().as_str(), 16).as_str());
    let c = concat(b.as_str(), " ");
    let d = concat(c.as_str(), done_tally(e).as_str());
    let f = concat(d.as_str(), "   ");
    concat(f.as_str(), e.title.as_str())
}

/// `"{n} videos, {done} done, {failed} failed{uploader suffix}"`.
pub open spec fn spec_entry_counts(e: HistoryEntry) -> Seq<char> {
    dec(e.videos@.len()) + " videos, "@ + dec(count_done(e.videos@)) + " done, "@ + dec(
        count_failed(e.videos@),
    ) + " failed"@ + uploader_suffix(opt_view(e.uploader))
}

fn entry_counts(e: &HistoryEntry) -> (r: String)
    ensures
        r@ == spec_entry_counts(*e),
{
    let a = concat(u64_to_string(e.videos.len() as u64).as_str(), " videos, ");
    let b = concat(a.as_str(), u64_to_string(e.done_count() as u64).as_str());
    let c = concat(b.as_str(), " done, ");
    let d = concat(c.as_str(), u64_to_string(e.failed_count() as u64).as_str());
    let f = concat(d.as_str(), " failed");
    concat(f.as_str(), uploader_suffix_of(&e.uploader).as_str())
}

/// The desktop header of an opened playlist entry, under its title.
pub fn entry_header(e: &HistoryEntry) -> (r: String)
    ensures
        r@ == spec_entry_counts(*e) + "   --   "@ + spec_format_unix_utc(e.finished_at),
{
    let a = concat(entry_counts(e).as_str(), "   --   ");
    concat(a.as_str(), e.finished_at_label().as_str())
}

/// The terminal header of an opened playlist entry.
pub fn entry_header_line(e: &HistoryEntry) -> (r: String)
    ensures
        r@ == e.title@ + "   ("@ + spec_entry_counts(*e) + ")   "@ + spec_format_unix_utc(
            e.finished_at,
        ),
{
    let a = concat(e.title.as_str(), "   (");
    let b = concat(a.as_str(), entry_counts(e).as_str());
    let c = concat(b.as_str(), ")   ");
    concat(c.as_str(), e.finished_at_label().as_str())
}

/// A recorded outcome's icon and colour.
pub open spec fn spec_outcome_style(o: HistoryOutcome) -> (Seq<char>, Shade) {
    match o {
        HistoryOutcome::Done => ("✓"@, Shade::Green),
        HistoryOutcome::Skipped => ("−"@, Shade::Blue),
        HistoryOutcome::Cancelled => ("✗"@, Shade::Gray),
        HistoryOutcome::Failed(_) => ("!"@, Shade::Red),
    }
}

pub fn outcome_style(o: &HistoryOutcome) -> (r: (&'static str, Shade))
    ensures
        (r.0@, r.1) == spec_outcome_style(*o),
{
    match o {
        HistoryOutcome::Done => ("✓", Shade::Green),
        HistoryOutcome::Skipped => ("−", Shade::Blue),
        HistoryOutcome::Cancelled => ("✗", Shade::Gray),
        HistoryOutcome::Failed(_) => ("!", Shade::Red),
    }
}

/// The desktop row of a recorded video: icon and title, then length, size
/// and outcome.
pub fn recorded_video_row(v: &HistoryVideoEntry) -> (r: (String, String))
    ensures
        r.0@ == spec_outcome_style(v.outcome).0 + " "@ + v.title@,
        r.1@ == spec_duration_label(v.duration_secs) + "   "@ + spec_size_label(v.filesize_bytes)
            + "   "@ + v.outcome.spec_label(),
{
    let (icon, _) = outcome_style(&v.outcome);
    let a = concat(icon, " ");
    let first = concat(a.as_str(), v.title.as_str());
    let b = concat(v.duration_label().as_str(), "   ");
    let c = concat(b.as_str(), v.size_label().as_str());
    let d = concat(c.as_str(), "   ");
    let second = concat(d.as_str(), v.outcome.label());
    (first, second)
}

/// The terminal line of a recorded video: icon, length and size in padded
/// columns, title.
pub open spec fn spec_recorded_video_line(v: HistoryVideoEntry) -> Seq<char> {
    spec_outcome_style(v.outcome).0 + " "@ + pad_right(spec_duration_label(v.duration_secs), 8)
        + " "@ + pad_right(spec_size_label(v.filesize_bytes), 9) + " "@ + v.title@
}

pub fn recorded_video_line(v: &HistoryVideoEntry) -> (r: String)
    ensures
        r@ == spec_recorded_video_line(*v),
{
    let (icon, _) = outcome_style(&v.outcome);
    let a = concat(icon, " ");
    let b = concat(a.as_str(), pad_right_exec(v.duration_label().as_str(), 8).as_str());
    let c = concat(b.as_str(), " ");
    let d = concat(c.as_str(), pad_right_exec(v.size_label().as_str(), 9).as_str());
    let e = concat(d.as_str(), " ");
    concat(e.as_str(), v.title.as_str())
}

/// The detail view's wording of an outcome.
pub open spec fn spec_outcome_text(o: HistoryOutcome) -> Seq<char> {
    match o {
        HistoryOutcome::Done => "Done"@,
        HistoryOutcome::Skipped => "Skipped (already had it)"@,
        HistoryOutcome::Cancelled => "Cancelled"@,
        HistoryOutcome::Failed(_) => "Failed"@,
    }
}

pub fn outcome_text(o: &HistoryOutcome) -> (r: &'static str)
    ensures
        r@ == spec_outcome_text(*o),
{
    match o {
        HistoryOutcome::Done => "Done",
        HistoryOutcome::Skipped => "Skipped (already had it)",
        HistoryOutcome::Cancelled => "Cancelled",
        HistoryOutcome::Failed(_) => "Failed",
    }
}

/// The labelled facts of the detail view, in order: title, uploader (`--`
/// when unknown), length, size, URL and result.
pub open spec fn spec_detail_rows(v: HistoryVideoEntry) -> Seq<(Seq<char>, Seq<char>)> {
    seq![
        ("Title"@, v.title@),
        ("Uploader"@, or_dashes(opt_view(v.uploader))),
        ("Length"@, spec_duration_label(v.duration_secs)),
        ("Size"@, spec_size_label(v.filesize_bytes)),
        ("URL"@, v.url@),
        ("Result"@, spec_outcome_text(v.outcome)),
    ]
}

pub open spec fn row_views(rows: Seq<(&'static str, String)>) -> Seq<(Seq<char>, Seq<char>)> {
    rows.map_values(|r: (&'static str, String)| (r.0@, r.1@))
}

pub fn detail_rows(v: &HistoryVideoEntry) -> (r: Vec<(&'static str, String)>)
    ensures
        row_views(r@) == spec_detail_rows(*v),
{
    let mut r: Vec<(&'static str, String)> = Vec::new();
    r.push(("Title", v.title.clone()));
    r.push(("Uploader", or_dashes_exec(&v.uploader)));
    r.push(("Length", v.duration_label()));
    r.push(("Size", v.size_label()));
    r.push(("URL", v.url.clone()));
    r.push(("Result", String::from_str(outcome_text(&v.outcome))));
    assert(row_views(r@) =~= spec_detail_rows(*v));
    r
}

/// The terminal form of one detail row: the label and a colon, padded to
/// twelve columns, then the value.
pub open spec fn spec_detail_line(label: Seq<char>, value: Seq<char>) -> Seq<char> {
    pad_right(label + ":"@, 12) + value
}

pub fn detail_line(label: &str, value: &str) -> (r: String)
    ensures
        r@ == spec_detail_line(label@, value@),
{
    let l = concat(label, ":");
    concat(pad_right_exec(l.as_str(), 12).as_str(), value)
}

/// The error line under a failed video's details.
pub open spec fn spec_failure_note(o: HistoryOutcome) -> Option<Seq<char>> {
    match o {
        HistoryOutcome::Failed(msg) => Some("Error: "@ + msg@),
        _ => None,
    }
}

pub fn failure_note(o: &HistoryOutcome) -> (r: Option<String>)
    ensures
        opt_view(r) == spec_failure_note(*o),
{
    match o {
        HistoryOutcome::Failed(msg) => Some(concat("Error: ", msg.as_str())),
        _ => None,
    }
}

// ---------------------------------------------------------------------------
// Lines of text with a colour each
// ---------------------------------------------------------------------------

pub open spec fn line_views(v: Seq<(String, Shade)>) -> Seq<(Seq<char>, Shade)> {
    v.map_values(|l: (String, Shade)| (l.0@, l.1))
}

pub open spec fn static_line_views(v: Seq<(&'static str, Shade)>) -> Seq<(Seq<char>, Shade)> {
    v.map_values(|l: (&'static str, Shade)| (l.0@, l.1))
}

// ---------------------------------------------------------------------------
// The desktop window
// ---------------------------------------------------------------------------

/// The icon in front of each tab's name.
pub open spec fn spec_tab_icon(t: Tab) -> Seq<char> {
    match t {
        Tab::Download => "⬇"@,
        Tab::History => "▤"@,
        Tab::Settings => "⚙"@,
        Tab::Updates => "↻"@,
        Tab::About => "i"@,
    }
}

/// A tab button's caption: its icon, a space, its name.
pub fn tab_caption(t: Tab) -> (r: String)
    ensures
        r@ == spec_tab_icon(t) + " "@ + t.spec_label(),
{
    let icon = match t {
        Tab::Download => "⬇",
        Tab::History => "▤",
        Tab::Settings => "⚙",
        Tab::Updates => "↻",
        Tab::About => "i",
    };
    let a = concat(icon, " ");
    concat(a.as_str(), t.label())
}

/// What the status bar says when no status message is set: a plain
/// description of what is going on on the current screen.
pub open spec fn spec_activity_text(st: GuiState) -> Seq<char> {
    match st.screen {
        Screen::UrlInput => if !st.tools_checked {
            "Starting up..."@
        } else if st.url.fetching {
            "Fetching playlist info..."@
        } else {
            "Ready"@
        },
        Screen::VideoList => "Choose videos, then start the download"@,
        Screen::Downloading => if st.queue.batch_done {
            "All downloads finished"@
        } else {
            "Downloading..."@
        },
        Screen::HistoryList | Screen::HistoryPlaylist | Screen::HistoryVideoDetail =>
            "Browsing download history"@,
        Screen::Settings => "Settings"@,
        Screen::Updates => "Updates"@,
        Screen::About => "About VidSave"@,
    }
}

pub fn activity_text(st: &GuiState) -> (r: &'static str)
    ensures
        r@ == spec_activity_text(*st),
{
    match st.screen {
        Screen::UrlInput => if !st.tools_checked {
            "Starting up..."
        } else if st.url.fetching {
            "Fetching playlist info..."
        } else {
            "Ready"
        },
        Screen::VideoList => "Choose videos, then start the download",
        Screen::Downloading => if st.queue.batch_done {
            "All downloads finished"
        } else {
            "Downloading..."
        },
        Screen::HistoryList | Screen::HistoryPlaylist | Screen::HistoryVideoDetail =>
            "Browsing download history",
        Screen::Settings => "Settings",
        Screen::Updates => "Updates",
        Screen::About => "About VidSave",
    }
}

/// The status bar: a status message takes priority (green for
/// information, red for an error); without one, the activity text in a
/// dim colour.
pub open spec fn spec_gui_status_bar(st: GuiState) -> (Seq<char>, Shade) {
    match st.status {
        Some(m) => (m.text@, if m.kind == StatusKind::Info {
            Shade::Green
        } else {
            Shade::Red
        }),
        None => (spec_activity_text(st), Shade::Gray),
    }
}

pub fn gui_status_bar(st: &GuiState) -> (r: (String, Shade))
    ensures
        (r.0@, r.1) == spec_gui_status_bar(*st),
{
    match &st.status {
        Some(m) => {
            let shade = match m.kind {
                StatusKind::Info => Shade::Green,
                StatusKind::Error => Shade::Red,
            };
            (m.text.clone(), shade)
        },
        None => (String::from_str(activity_text(st)), Shade::Gray),
    }
}

/// The fetch button: `Resolving...` while a fetch runs, and pressable only
/// when no fetch runs and the tool check found yt-dlp.
pub open spec fn spec_fetch_button(st: GuiState) -> (Seq<char>, bool) {
    (
        if st.url.fetching {
            "Resolving..."@
        } else {
            "Fetch"@
        },
        !st.url.fetching && st.tools_checked && st.binary_status.ytdlp is Some,
    )
}

pub fn fetch_button(st: &GuiState) -> (r: (&'static str, bool))
    ensures
        (r.0@, r.1) == spec_fetch_button(*st),
{
    let label = if st.url.fetching {
        "Resolving..."
    } else {
        "Fetch"
    };
    (label, !st.url.fetching && st.tools_checked && st.binary_status.ready())
}

/// The plain-language setup notice under the URL box: still checking; a
/// required tool missing; otherwise a warning for each optional tool that
/// is missing, or `Ready` when nothing is.
pub open spec fn spec_setup_notice(st: GuiState) -> Seq<(Seq<char>, Shade)> {
    if !st.tools_checked {
        seq![("Checking your setup..."@, Shade::Gray)]
    } else if st.binary_status.ytdlp is None {
        seq![
            ("Something needed to download videos is missing. Try reinstalling VidSave."@, Shade::Red),
        ]
    } else {
        let ffmpeg = if st.binary_status.ffmpeg_path is None {
            seq![
                ("⚠ Merging video/audio and embedding thumbnails is unavailable right now."@, Shade::Yellow),
            ]
        } else {
            Seq::empty()
        };
        let js = if st.binary_status.js_runtime is None {
            seq![("⚠ Some videos may fail to download until VidSave is reinstalled."@, Shade::Yellow)]
        } else {
            Seq::empty()
        };
        if ffmpeg.len() + js.len() == 0 {
            seq![("Ready"@, Shade::Green)]
        } else {
            ffmpeg + js
        }
    }
}

pub fn setup_notice(st: &GuiState) -> (r: Vec<(&'static str, Shade)>)
    ensures
        static_line_views(r@) == spec_setup_notice(*st),
{
    let mut r: Vec<(&'static str, Shade)> = Vec::new();
    if !st.tools_checked {
        r.push(("Checking your setup...", Shade::Gray));
    } else if !st.binary_status.ready() {
        r.push(
            ("Something needed to download videos is missing. Try reinstalling VidSave.", Shade::Red),
        );
    } else {
        if st.binary_status.ffmpeg_path.is_none() {
            r.push(
                ("⚠ Merging video/audio and embedding thumbnails is unavailable right now.", Shade::Yellow),
            );
        }
        if st.binary_status.js_runtime.is_none() {
            r.push(("⚠ Some videos may fail to download until VidSave is reinstalled.", Shade::Yellow));
        }
        if r.len() == 0 {
            r.push(("Ready", Shade::Green));
        }
    }
    assert(static_line_views(r@) =~= spec_setup_notice(*st));
    r
}

/// What the Updates tab shows for a check's state: its lines, the release
/// notes when an update has any that are not blank, and the button's
/// label when there is a button.
pub open spec fn spec_update_panel(u: UpdateStatus) -> (
    Seq<(Seq<char>, Shade)>,
    Option<Seq<char>>,
    Option<Seq<char>>,
) {
    match u {
        UpdateStatus::Idle => (Seq::empty(), None, Some("Check for updates"@)),
        UpdateStatus::Checking => (seq![("Checking for updates..."@, Shade::Gray)], None, None),
        UpdateStatus::UpToDate => (
            seq![("You're up to date."@, Shade::Green)],
            None,
            Some("Check again"@),
        ),
        UpdateStatus::Available(info) => (
            seq![("VidSave "@ + info.version@ + " is available"@, Shade::Plain)],
            if trim(info.notes@).len() == 0 {
                None
            } else {
                Some(info.notes@)
            },
            Some("Download & install"@),
        ),
        UpdateStatus::Installing => (
            seq![
                ("Downloading and launching the installer..."@, Shade::Gray),
                ("VidSave will close automatically once the installer takes over."@, Shade::Gray),
            ],
            None,
            None,
        ),
        UpdateStatus::Error(message) => (
            seq![("Couldn't check for updates: "@ + message@, Shade::Red)],
            None,
            Some("Try again"@),
        ),
    }
}

/// The Updates tab's content; see `spec_update_panel`.
#[derive(Debug)]
pub struct UpdatePanel {
    pub lines: Vec<(String, Shade)>,
    pub notes: Option<String>,
    pub button: Option<&'static str>,
}

pub open spec fn static_opt_view(s: Option<&'static str>) -> Option<Seq<char>> {
    match s {
        Some(v) => Some(v@),
        None => None,
    }
}

pub fn update_panel(u: &UpdateStatus) -> (r: UpdatePanel)
    ensures
        (line_views(r.lines@), opt_view(r.notes), static_opt_view(r.button)) == spec_update_panel(*u),
{
    let mut lines: Vec<(String, Shade)> = Vec::new();
    let mut notes: Option<String> = None;
    let button: Option<&'static str>;
    match u {
        UpdateStatus::Idle => {
            button = Some("Check for updates");
        },
        UpdateStatus::Checking => {
            lines.push((String::from_str("Checking for updates..."), Shade::Gray));
            button = None;
        },
        UpdateStatus::UpToDate => {
            lines.push((String::from_str("You're up to date."), Shade::Green));
            button = Some("Check again");
        },
        UpdateStatus::Available(info) => {
            let a = concat("VidSave ", info.version.as_str());
            lines.push((concat(a.as_str(), " is available"), Shade::Plain));
            if trim_str(info.notes.as_str()).unicode_len() != 0 {
                notes = Some(info.notes.clone());
            }
            button = Some("Download & install");
        },
        UpdateStatus::Installing => {
            lines.push((String::from_str("Downloading and launching the installer..."), Shade::Gray));
            lines.push(
                (
                    String::from_str("VidSave will close automatically once the installer takes over."),
                    Shade::Gray,
                ),
            );
            button = None;
        },
        UpdateStatus::Error(message) => {
            lines.push((concat("Couldn't check for updates: ", message.as_str()), Shade::Red));
            button = Some("Try again");
        },
    }
    assert(line_views(lines@) =~= spec_update_panel(*u).0);
    UpdatePanel { lines, notes, button }
}

/// The settings save button says so for a moment after a save.
pub open spec fn spec_save_label(flash: bool) -> Seq<char> {
    if flash {
        "Saved ✓"@
    } else {
        "Save to disk"@
    }
}

pub fn save_label(flash: bool) -> (r: &'static str)
    ensures
        r@ == spec_save_label(flash),
{
    if flash {
        "Saved ✓"
    } else {
        "Save to disk"
    }
}

/// A settings row's label is dimmed when the field does not apply to the
/// chosen media mode.
pub fn field_shade(field: SettingsField, settings: &Settings) -> (r: Shade)
    ensures
        r == (if field.spec_relevant_for(settings.media_mode) {
            Shade::Plain
        } else {
            Shade::Gray
        }),
{
    if field.relevant_for(settings.media_mode) {
        Shade::Plain
    } else {
        Shade::Gray
    }
}

// ---------------------------------------------------------------------------
// The terminal screens
// ---------------------------------------------------------------------------

/// The fetch spinner's frame: it turns once every two ticks.
pub open spec fn spec_spinner(frame: nat) -> Seq<char> {
    let k = (frame / 2) % 4;
    if k == 0 {
        "|"@
    } else if k == 1 {
        "/"@
    } else if k == 2 {
        "-"@
    } else {
        "\\"@
    }
}

/// The Fetching screen's text: spinner, the URL being resolved, and how to
/// cancel.
pub open spec fn spec_fetching_text(app: App) -> Seq<char> {
    spec_spinner(app.url.spinner_frame as nat) + " Resolving "@ + app.url.pending_url@
        + " ...\n\nEsc to cancel"@
}

pub fn fetching_text(app: &App) -> (r: String)
    ensures
        r@ == spec_fetching_text(*app),
{
    let k = (app.url.spinner_frame / 2) % 4;
    let spinner = if k == 0 {
        "|"
    } else if k == 1 {
        "/"
    } else if k == 2 {
        "-"
    } else {
        "\\"
    };
    let a = concat(spinner, " Resolving ");
    let b = concat(a.as_str(), app.url.pending_url.as_str());
    concat(b.as_str(), " ...\n\nEsc to cancel")
}

/// The terminal status bar: the status message (green or red), else a
/// dim hint to press F1.
pub open spec fn spec_tui_status_bar(app: App) -> (Seq<char>, Shade) {
    match app.status {
        Some(m) => (m.text@, if m.kind == MessageKind::Info {
            Shade::Green
        } else {
            Shade::Red
        }),
        None => ("F1 help"@, Shade::Gray),
    }
}

pub fn tui_status_bar(app: &App) -> (r: (String, Shade))
    ensures
        (r.0@, r.1) == spec_tui_status_bar(*app),
{
    match &app.status {
        Some(m) => {
            let shade = match m.kind {
                MessageKind::Info => Shade::Green,
                MessageKind::Error => Shade::Red,
            };
            (m.text.clone(), shade)
        },
        None => (String::from_str("F1 help"), Shade::Gray),
    }
}

/// The Info box of the URL screen: the hint, then one line per tool saying
/// where it was found or what its absence means, and a last line pointing
/// to a reinstall when yt-dlp is missing.
pub open spec fn spec_tool_lines(b: BinaryStatus) -> Seq<(Seq<char>, Shade)> {
    let ytdlp = match (b.ytdlp_version, b.ytdlp) {
        (Some(v), Some(y)) => ("yt-dlp: "@ + v@ + "  ("@ + y.python_path@ + ")"@, Shade::Green),
        _ => ("yt-dlp: NOT FOUND -- bundled Python runtime is missing or broken"@, Shade::Red),
    };
    let ffmpeg = match b.ffmpeg_path {
        Some(p) => ("ffmpeg: found  ("@ + p@ + ")"@, Shade::Green),
        None => ("ffmpeg: NOT FOUND (merging/thumbnail embedding disabled)"@, Shade::Yellow),
    };
    let js = match b.js_runtime {
        Some(j) => ("JS runtime: "@ + j.name@ + "  ("@ + j.path@ + ")"@, Shade::Green),
        None => ("JS runtime: NOT FOUND -- some videos may wrongly report as unavailable"@, Shade::Yellow),
    };
    let lines = seq![
        ("Paste a YouTube playlist, channel, or single video URL above."@, Shade::Plain),
        ytdlp,
        ffmpeg,
        js,
    ];
    if b.ytdlp is None {
        lines.push(("Reinstall via the installer, or see README.md for manual setup"@, Shade::Red))
    } else {
        lines
    }
}

pub fn tool_lines(b: &BinaryStatus) -> (r: Vec<(String, Shade)>)
    ensures
        line_views(r@) == spec_tool_lines(*b),
{
    let mut r: Vec<(String, Shade)> = Vec::new();
    r.push(
        (String::from_str("Paste a YouTube playlist, channel, or single video URL above."), Shade::Plain),
    );
    match (&b.ytdlp_version, &b.ytdlp) {
        (Some(v), Some(y)) => {
            let a = concat("yt-dlp: ", v.as_str());
            let c = concat(a.as_str(), "  (");
            let d = concat(c.as_str(), y.python_path.as_str());
            r.push((concat(d.as_str(), ")"), Shade::Green));
        },
        _ => r.push(
            (
                String::from_str("yt-dlp: NOT FOUND -- bundled Python runtime is missing or broken"),
                Shade::Red,
            ),
        ),
    }
    match &b.ffmpeg_path {
        Some(p) => {
            let a = concat("ffmpeg: found  (", p.as_str());
            r.push((concat(a.as_str(), ")"), Shade::Green));
        },
        None => r.push(
            (String::from_str("ffmpeg: NOT FOUND (merging/thumbnail embedding disabled)"), Shade::Yellow),
        ),
    }
    match &b.js_runtime {
        Some(j) => {
            let a = concat("JS runtime: ", j.name);
            let c = concat(a.as_str(), "  (");
            let d = concat(c.as_str(), j.path.as_str());
            r.push((concat(d.as_str(), ")"), Shade::Green));
        },
        None => r.push(
            (
                String::from_str("JS runtime: NOT FOUND -- some videos may wrongly report as unavailable"),
                Shade::Yellow,
            ),
        ),
    }
    if !b.ready() {
        r.push(
            (String::from_str("Reinstall via the installer, or see README.md for manual setup"), Shade::Red),
        );
    }
    assert(line_views(r@) =~= spec_tool_lines(*b));
    r
}

/// The history list's title tells how to move focus in and out of it.
pub open spec fn spec_history_title(focused: bool) -> Seq<char> {
    if focused {
        "Download history  (Enter open, Tab back to URL box)"@
    } else {
        "Download history  (Tab to browse)"@
    }
}

pub fn history_title(focused: bool) -> (r: &'static str)
    ensures
        r@ == spec_history_title(focused),
{
    if focused {
        "Download history  (Enter open, Tab back to URL box)"
    } else {
        "Download history  (Tab to browse)"
    }
}

/// One row of the terminal settings list: a section header or a field.
#[derive(Debug, Clone, Copy)]
pub enum SettingsRow {
    Header(&'static str),
    Field(SettingsField),
}

/// The mathematical view of a `SettingsRow`.
pub enum SettingsRowModel {
    Header(Seq<char>),
    Field(SettingsField),
}

pub open spec fn row_model(r: SettingsRow) -> SettingsRowModel {
    match r {
        SettingsRow::Header(h) => SettingsRowModel::Header(h@),
        SettingsRow::Field(f) => SettingsRowModel::Field(f),
    }
}

/// The rows for `fields`, each field preceded by its section's header when
/// it starts one.
pub open spec fn spec_settings_rows(fields: Seq<SettingsField>) -> Seq<SettingsRowModel>
    decreases fields.len(),
{
    if fields.len() == 0 {
        Seq::empty()
    } else {
        let f = fields.last();
        let tail = match f.spec_section() {
            Some(h) => seq![SettingsRowModel::Header(h), SettingsRowModel::Field(f)],
            None => seq![SettingsRowModel::Field(f)],
        };
        spec_settings_rows(fields.drop_last()) + tail
    }
}

/// Every settings row in display order, and the position of the field
/// under `cursor` among them (where the list's highlight goes).
pub fn settings_rows(cursor: usize) -> (r: (Vec<SettingsRow>, usize))
    requires
        cursor < 24,
    ensures
        r.0@.map_values(|x: SettingsRow| row_model(x)) == spec_settings_rows(SettingsField::ALL@),
        r.1 < r.0@.len(),
        row_model(r.0@[r.1 as int]) == SettingsRowModel::Field(SettingsField::ALL@[cursor as int]),
{
    let all = SettingsField::ALL;
    let mut rows: Vec<SettingsRow> = Vec::new();
    let mut at: usize = 0;
    let mut i: usize = 0;
    assert(all@.take(0) =~= Seq::<SettingsField>::empty());
    while i < 24
        invariant
            i <= 24,
            all@ == SettingsField::ALL@,
            all@.len() == 24,
            cursor < 24,
            rows@.len() <= 2 * i,
            rows@.map_values(|x: SettingsRow| row_model(x)) == spec_settings_rows(all@.take(i as int)),
            cursor < i ==> at < rows@.len() && row_model(rows@[at as int])
                == SettingsRowModel::Field(all@[cursor as int]),
        decreases 24 - i,
    {
        let f = all[i];
        assert(all@.take(i + 1).drop_last() =~= all@.take(i as int));
        assert(all@.take(i + 1).last() == f);
        if let Some(h) = f.section() {
            rows.push(SettingsRow::Header(h));
        }
        if i == cursor {
            at = rows.len();
        }
        rows.push(SettingsRow::Field(f));
        i = i + 1;
        assert(rows@.map_values(|x: SettingsRow| row_model(x)) =~= spec_settings_rows(
            all@.take(i as int),
        ));
    }
    assert(all@.take(24) =~= all@);
    (rows, at)
}

/// A section header row: `"-- {name} --"`.
pub fn header_line(h: &str) -> (r: String)
    ensures
        r@ == "-- "@ + h@ + " --"@,
{
    let a = concat("-- ", h);
    concat(a.as_str(), " --")
}

/// A field row: the label padded to thirty-six columns, then the value.
pub fn field_line(field: SettingsField, settings: &Settings) -> (r: String)
    ensures
        r@ == pad_right(field.spec_label(), 36) + " "@ + field.spec_display_value(settings@),
{
    let a = concat(pad_right_exec(field.label(), 36).as_str(), " ");
    concat(a.as_str(), field.display_value(settings).as_str())
}

/// The edit box's title while a text field is edited.
pub fn edit_title(field: SettingsField) -> (r: String)
    ensures
        r@ == "Edit: "@ + field.spec_label() + "  (Enter save, Esc cancel)"@,
{
    let a = concat("Edit: ", field.label());
    concat(a.as_str(), "  (Enter save, Esc cancel)")
}

/// The help overlay's lines for a screen, after the global keys and a
/// blank line.
pub open spec fn spec_screen_help(screen: TuiScreen) -> Seq<Seq<char>> {
    match screen {
        TuiScreen::UrlInput => seq!["Enter          Fetch playlist / video"@, "F2             Open settings"@, "Tab            Move focus to/from download history"@, "Up/Down, j/k   (in history) Move cursor"@, "Enter          (in history) Open the selected entry"@],
        TuiScreen::Fetching => seq!["Esc            Cancel fetch"@],
        TuiScreen::VideoList => seq!["Up/Down, j/k   Move cursor"@, "Space          Toggle selection"@, "a / n / i      Select all / none / invert"@, "/              Filter by title or uploader"@, "s, F2          Settings"@, "Enter          Start downloading the selection"@, "Esc            Back to URL screen"@, "q              Quit"@],
        TuiScreen::Settings => seq!["Up/Down, j/k   Move cursor"@, "Left/Right     Cycle enum value"@, "Enter/Space    Toggle, cycle, or edit the field"@, "Shift+S        Save settings to disk"@, "Esc, F2        Back"@],
        TuiScreen::Downloading => seq!["Up/Down, j/k   Move cursor"@, "p              Pause the selected item"@, "r              Resume (if paused) or retry (if failed)"@, "c              Cancel the selected item"@, "C              Cancel everything"@, "Esc            Back to video list (downloads keep running)"@, "q              Quit"@],
        TuiScreen::HistoryPlaylist => seq!["Up/Down, j/k   Move cursor"@, "Enter          View that video's details"@, "Esc            Back to the URL screen"@, "q              Quit"@],
        TuiScreen::HistoryVideoDetail => seq!["Esc            Back"@, "q              Quit"@],
    }
}

pub open spec fn str_views(v: Seq<&'static str>) -> Seq<Seq<char>> {
    v.map_values(|x: &'static str| x@)
}

/// Every line of the help overlay for `screen`.
pub fn help_lines(screen: TuiScreen) -> (r: Vec<&'static str>)
    ensures
        str_views(r@) == seq!["Global: F1 help   Ctrl+C quit"@, ""@] + spec_screen_help(screen),
{
    let mut r: Vec<&'static str> = Vec::new();
    r.push("Global: F1 help   Ctrl+C quit");
    r.push("");
    match screen {
        TuiScreen::UrlInput => {
            r.push("Enter          Fetch playlist / video");
            r.push("F2             Open settings");
            r.push("Tab            Move focus to/from download history");
            r.push("Up/Down, j/k   (in history) Move cursor");
            r.push("Enter          (in history) Open the selected entry");
        },
        TuiScreen::Fetching => {
            r.push("Esc            Cancel fetch");
        },
        TuiScreen::VideoList => {
            r.push("Up/Down, j/k   Move cursor");
            r.push("Space          Toggle selection");
            r.push("a / n / i      Select all / none / invert");
            r.push("/              Filter by title or uploader");
            r.push("s, F2          Settings");
            r.push("Enter          Start downloading the selection");
            r.push("Esc            Back to URL screen");
            r.push("q              Quit");
        },
        TuiScreen::Settings => {
            r.push("Up/Down, j/k   Move cursor");
            r.push("Left/Right     Cycle enum value");
            r.push("Enter/Space    Toggle, cycle, or edit the field");
            r.push("Shift+S        Save settings to disk");
            r.push("Esc, F2        Back");
        },
        TuiScreen::Downloading => {
            r.push("Up/Down, j/k   Move cursor");
            r.push("p              Pause the selected item");
            r.push("r              Resume (if paused) or retry (if failed)");
            r.push("c              Cancel the selected item");
            r.push("C              Cancel everything");
            r.push("Esc            Back to video list (downloads keep running)");
            r.push("q              Quit");
        },
        TuiScreen::HistoryPlaylist => {
            r.push("Up/Down, j/k   Move cursor");
            r.push("Enter          View that video's details");
            r.push("Esc            Back to the URL screen");
            r.push("q              Quit");
        },
        TuiScreen::HistoryVideoDetail => {
            r.push("Esc            Back");
            r.push("q              Quit");
        },
    }
    assert(str_views(r@) =~= seq!["Global: F1 help   Ctrl+C quit"@, ""@] + spec_screen_help(screen));
    r
}

// ---------------------------------------------------------------------------
// Dropdowns of the cycling settings
// ---------------------------------------------------------------------------

/// The labels of every quality, in cycling order.
pub open spec fn quality_labels() -> Seq<Seq<char>> {
    VideoQuality::ALL@.map_values(|q: VideoQuality| q.spec_label())
}

pub open spec fn container_labels() -> Seq<Seq<char>> {
    VideoContainer::ALL@.map_values(|c: VideoContainer| c.spec_label())
}

pub open spec fn audio_labels() -> Seq<Seq<char>> {
    AudioFormat::ALL@.map_values(|a: AudioFormat| a.spec_label())
}

/// A dropdown for a cycling setting: the labels of all its options, in
/// cycling order, and the position of the current one. `None` for a field
/// that does not cycle.
pub fn cycle_choices(field: SettingsField, settings: &Settings) -> (r: Option<(Vec<&'static str>, usize)>)
    ensures
        match field {
            SettingsField::MediaMode => r matches Some((l, i)) && str_views(l@) == seq![
                "Video + Audio"@,
                "Audio only"@,
            ] && i == (if settings.media_mode == MediaMode::VideoAudio {
                0usize
            } else {
                1usize
            }),
            SettingsField::VideoQuality => r matches Some((l, i)) && str_views(l@) == quality_labels()
                && i < 8 && VideoQuality::ALL@[i as int] == settings.video_quality,
            SettingsField::VideoContainer => r matches Some((l, i)) && str_views(l@)
                == container_labels() && i < 3 && VideoContainer::ALL@[i as int]
                == settings.video_container,
            SettingsField::AudioFormat => r matches Some((l, i)) && str_views(l@) == audio_labels() && i
                < 6 && AudioFormat::ALL@[i as int] == settings.audio_format,
            _ => r is None,
        },
{
    match field {
        SettingsField::MediaMode => {
            let mut l: Vec<&'static str> = Vec::new();
            l.push(MediaMode::VideoAudio.label());
            l.push(MediaMode::AudioOnly.label());
            proof {
                assert(str_views(l@) =~= seq!["Video + Audio"@, "Audio only"@]);
            }
            let i: usize = if settings.media_mode == MediaMode::VideoAudio {
                0
            } else {
                1
            };
            Some((l, i))
        },
        SettingsField::VideoQuality => {
            let all = VideoQuality::ALL;
            let mut l: Vec<&'static str> = Vec::new();
            let mut at: usize = 0;
            let mut k: usize = 0;
            while k < 8
                invariant
                    k <= 8,
                    all@ == VideoQuality::ALL@,
                    str_views(l@) == all@.take(k as int).map_values(|q: VideoQuality| q.spec_label()),
                    at < 8,
                    (exists|j: int| 0 <= j < k && all@[j] == settings.video_quality) ==> all@[at as int]
                        == settings.video_quality,
                decreases 8 - k,
            {
                let ghost before = l@;
                let lab = all[k].label();
                l.push(lab);
                proof {
                    assert(str_views(l@) =~= str_views(before).push(lab@));
                    assert(all@.take(k + 1) =~= all@.take(k as int).push(all@[k as int]));
                }
                if all[k] == settings.video_quality {
                    at = k;
                }
                k = k + 1;
                assert(str_views(l@) =~= all@.take(k as int).map_values(
                    |q: VideoQuality| q.spec_label(),
                ));
            }
            assert(all@.take(8) =~= all@);
            assert(all@[settings.video_quality.index() as int] == settings.video_quality);
            Some((l, at))
        },
        SettingsField::VideoContainer => {
            let all = VideoContainer::ALL;
            let mut l: Vec<&'static str> = Vec::new();
            let mut at: usize = 0;
            let mut k: usize = 0;
            while k < 3
                invariant
                    k <= 3,
                    all@ == VideoContainer::ALL@,
                    str_views(l@) == all@.take(k as int).map_values(|c: VideoContainer| c.spec_label()),
                    at < 3,
                    (exists|j: int| 0 <= j < k && all@[j] == settings.video_container) ==> all@[at as int]
                        == settings.video_container,
                decreases 3 - k,
            {
                let ghost before = l@;
                let lab = all[k].label();
                l.push(lab);
                proof {
                    assert(str_views(l@) =~= str_views(before).push(lab@));
                    assert(all@.take(k + 1) =~= all@.take(k as int).push(all@[k as int]));
                }
                if all[k] == settings.video_container {
                    at = k;
                }
                k = k + 1;
                assert(str_views(l@) =~= all@.take(k as int).map_values(
                    |c: VideoContainer| c.spec_label(),
                ));
            }
            assert(all@.take(3) =~= all@);
            assert(all@[match settings.video_container {
                VideoContainer::Mp4 => 0int,
                VideoContainer::Mkv => 1int,
                VideoContainer::Webm => 2int,
            }] == settings.video_container);
            Some((l, at))
        },
        SettingsField::AudioFormat => {
            let all = AudioFormat::ALL;
            let mut l: Vec<&'static str> = Vec::new();
            let mut at: usize = 0;
            let mut k: usize = 0;
            while k < 6
                invariant
                    k <= 6,
                    all@ == AudioFormat::ALL@,
                    str_views(l@) == all@.take(k as int).map_values(|a: AudioFormat| a.spec_label()),
                    at < 6,
                    (exists|j: int| 0 <= j < k && all@[j] == settings.audio_format) ==> all@[at as int]
                        == settings.audio_format,
                decreases 6 - k,
            {
                let ghost before = l@;
                let lab = all[k].label();
                l.push(lab);
                proof {
                    assert(str_views(l@) =~= str_views(before).push(lab@));
                    assert(all@.take(k + 1) =~= all@.take(k as int).push(all@[k as int]));
                }
                if all[k] == settings.audio_format {
                    at = k;
                }
                k = k + 1;
                assert(str_views(l@) =~= all@.take(k as int).map_values(|a: AudioFormat| a.spec_label()));
            }
            assert(all@.take(6) =~= all@);
            assert(all@[match settings.audio_format {
                AudioFormat::Mp3 => 0int,
                AudioFormat::M4a => 1int,
                AudioFormat::Opus => 2int,
                AudioFormat::Flac => 3int,
                AudioFormat::Wav => 4int,
                AudioFormat::Best => 5int,
            }] == settings.audio_format);
            Some((l, at))
        },
        _ => None,
    }
}

} // verus!
