//! The part of a frontend session that both the terminal UI and the
//! desktop GUI share: filtering and selecting a resolved playlist's videos,
//! preparing a download batch, and folding the download queue's events into
//! the rows on screen.

use vstd::prelude::*;

use crate::config::{Settings, SettingsModel};
use crate::downloader::DownloadEvent;
use crate::models::{
    DownloadItem, DownloadState, PlaylistInfo, Video, log_after_push, opt_view, spec_sanitize,
    sanitize_path_component,
};
use crate::paths::{join_path_on, path_join_on};
use crate::text::{chars_of, contains, contains_chars, trim, trim_str};
use crate::ytdlp::YtDlp;

verus! {

// ---------------------------------------------------------------------------
// Filtering
// ---------------------------------------------------------------------------

/// What `str::to_lowercase` gives for `s` (Unicode lowercase mapping).
pub uninterp spec fn lowercase_of(s: Seq<char>) -> Seq<char>;

/// `str::to_lowercase`.
#[verifier::external_body]
fn to_lowercase(s: &str) -> (r: String)
    ensures
        r@ == lowercase_of(s@),
{
    s.to_lowercase()
}

/// Whether a video (by its lowercased title and uploader) matches a
/// lowercased needle: a substring of the title or of the uploader.
pub open spec fn lowered_match(title: Seq<char>, uploader: Option<Seq<char>>, needle: Seq<char>) -> bool {
    contains(title, needle) || (uploader matches Some(u) && contains(u, needle))
}

/// The indices below `n` of the lowered (title, uploader) pairs that match
/// `needle`, in increasing order.
pub open spec fn lowered_indices(
    lowered: Seq<(String, Option<String>)>,
    needle: Seq<char>,
    n: nat,
) -> Seq<usize>
    decreases n,
{
    if n == 0 {
        Seq::empty()
    } else {
        let prev = lowered_indices(lowered, needle, (n - 1) as nat);
        let k = n - 1;
        if lowered_match(lowered[k].0@, opt_view(lowered[k].1), needle) {
            prev.push(k as usize)
        } else {
            prev
        }
    }
}

/// The indices, in increasing order, of the lowercased (title, uploader)
/// pairs that contain the lowercased needle.
pub fn matching_indices(lowered: &Vec<(String, Option<String>)>, needle: &str) -> (r: Vec<usize>)
    ensures
        r@ == lowered_indices(lowered@, needle@, lowered@.len()),
{
    let n = chars_of(needle);
    let mut r: Vec<usize> = Vec::new();
    let mut i: usize = 0;
    while i < lowered.len()
        invariant
            i <= lowered@.len(),
            n@ == needle@,
            r@ == lowered_indices(lowered@, needle@, i as nat),
        decreases lowered@.len() - i,
    {
        let t = chars_of(lowered[i].0.as_str());
        let mut m = contains_chars(t.as_slice(), n.as_slice());
        if !m {
            match &lowered[i].1 {
                Some(u) => {
                    let uc = chars_of(u.as_str());
                    m = contains_chars(uc.as_slice(), n.as_slice());
                },
                None => {},
            }
        }
        if m {
            r.push(i);
        }
        i = i + 1;
    }
    r
}

/// Whether a video matches a (lowercased) needle: its lowercased title or
/// uploader contains it.
pub open spec fn video_matches(v: Video, needle: Seq<char>) -> bool {
    contains(lowercase_of(v.title@), needle) || (v.uploader matches Some(u) && contains(
        lowercase_of(u@),
        needle,
    ))
}

/// The indices below `n` of the videos matching `needle`, in order.
pub open spec fn matching_videos(videos: Seq<Video>, needle: Seq<char>, n: nat) -> Seq<usize>
    decreases n,
{
    if n == 0 {
        Seq::empty()
    } else {
        let prev = matching_videos(videos, needle, (n - 1) as nat);
        if video_matches(videos[n - 1], needle) {
            prev.push((n - 1) as usize)
        } else {
            prev
        }
    }
}

/// `0, 1, ..., n - 1`.
pub open spec fn all_indices(n: nat) -> Seq<usize> {
    Seq::new(n, |i: int| i as usize)
}

/// The indices of a playlist's videos matching the filter text:
/// case-insensitive substring match (after trimming the filter) against
/// title or uploader; every index when the filter is blank; none without a
/// playlist.
pub open spec fn spec_filtered(playlist: Option<PlaylistInfo>, filter: Seq<char>) -> Seq<usize> {
    match playlist {
        None => Seq::empty(),
        Some(p) => {
            let needle = lowercase_of(trim(filter));
            if needle.len() == 0 {
                all_indices(p.videos@.len())
            } else {
                matching_videos(p.videos@, needle, p.videos@.len())
            }
        },
    }
}

proof fn lemma_lowered_is_matching(
    lowered: Seq<(String, Option<String>)>,
    videos: Seq<Video>,
    needle: Seq<char>,
    n: nat,
)
    requires
        n <= videos.len(),
        lowered.len() == videos.len(),
        forall|i: int|
            0 <= i < videos.len() ==> (#[trigger] lowered[i]).0@ == lowercase_of(videos[i].title@)
                && opt_view(lowered[i].1) == match videos[i].uploader {
                Some(u) => Some(lowercase_of(u@)),
                None => None,
            },
    ensures
        lowered_indices(lowered, needle, n) == matching_videos(videos, needle, n),
    decreases n,
{
    if n > 0 {
        lemma_lowered_is_matching(lowered, videos, needle, (n - 1) as nat);
        let k = n - 1;
        assert(lowered[k].0@ == lowercase_of(videos[k].title@));
    }
}

/// Indices into `playlist.videos` matching the filter text; see
/// `spec_filtered`.
pub fn filtered_video_indices(playlist: Option<&PlaylistInfo>, filter: &str) -> (r: Vec<usize>)
    ensures
        r@ == spec_filtered(
            match playlist {
                Some(p) => Some(*p),
                None => None,
            },
            filter@,
        ),
{
    let p = match playlist {
        Some(p) => p,
        None => return Vec::new(),
    };
    let trimmed = trim_str(filter);
    let needle = to_lowercase(trimmed.as_str());
    if chars_of(needle.as_str()).len() == 0 {
        let mut r: Vec<usize> = Vec::new();
        let mut i: usize = 0;
        while i < p.videos.len()
            invariant
                i <= p.videos@.len(),
                r@ == all_indices(i as nat),
            decreases p.videos@.len() - i,
        {
            r.push(i);
            i = i + 1;
            assert(r@ =~= all_indices(i as nat));
        }
        return r;
    }
    let mut lowered: Vec<(String, Option<String>)> = Vec::new();
    let mut i: usize = 0;
    while i < p.videos.len()
        invariant
            i <= p.videos@.len(),
            lowered@.len() == i,
            forall|j: int|
                0 <= j < i ==> (#[trigger] lowered@[j]).0@ == lowercase_of(p.videos@[j].title@)
                    && opt_view(lowered@[j].1) == match p.videos@[j].uploader {
                    Some(u) => Some(lowercase_of(u@)),
                    None => None,
                },
        decreases p.videos@.len() - i,
    {
        let v = &p.videos[i];
        let t = to_lowercase(v.title.as_str());
        let u = match &v.uploader {
            Some(u) => Some(to_lowercase(u.as_str())),
            None => None,
        };
        lowered.push((t, u));
        i = i + 1;
    }
    let r = matching_indices(&lowered, needle.as_str());
    proof {
        lemma_lowered_is_matching(lowered@, p.videos@, needle@, p.videos@.len());
    }
    r
}

// ---------------------------------------------------------------------------
// Selection
// ---------------------------------------------------------------------------

/// `selected` with the entry at `index` flipped; unchanged when `index` is
/// past the end.
pub open spec fn spec_toggle(selected: Seq<bool>, index: int) -> Seq<bool> {
    if 0 <= index < selected.len() {
        selected.update(index, !selected[index])
    } else {
        selected
    }
}

/// Flips one video's selection (no effect past the end).
pub fn toggle_selected(selected: &mut Vec<bool>, index: usize)
    ensures
        final(selected)@ == spec_toggle(old(selected)@, index as int),
{
    if index < selected.len() {
        let v = selected[index];
        selected.set(index, !v);
    }
}

/// `selected` with every listed index (that is in range) set to `value`, in
/// the order listed.
pub open spec fn spec_set_at(selected: Seq<bool>, indices: Seq<usize>, value: bool) -> Seq<bool>
    decreases indices.len(),
{
    if indices.len() == 0 {
        selected
    } else {
        let prev = spec_set_at(selected, indices.drop_last(), value);
        let k = indices.last() as int;
        if k < prev.len() {
            prev.update(k, value)
        } else {
            prev
        }
    }
}

/// `selected` with every listed index (that is in range) flipped, in the
/// order listed.
pub open spec fn spec_invert_at(selected: Seq<bool>, indices: Seq<usize>) -> Seq<bool>
    decreases indices.len(),
{
    if indices.len() == 0 {
        selected
    } else {
        spec_toggle(spec_invert_at(selected, indices.drop_last()), indices.last() as int)
    }
}

proof fn lemma_set_at_len(selected: Seq<bool>, indices: Seq<usize>, value: bool)
    ensures
        spec_set_at(selected, indices, value).len() == selected.len(),
    decreases indices.len(),
{
    if indices.len() > 0 {
        lemma_set_at_len(selected, indices.drop_last(), value);
    }
}

proof fn lemma_invert_at_len(selected: Seq<bool>, indices: Seq<usize>)
    ensures
        spec_invert_at(selected, indices).len() == selected.len(),
    decreases indices.len(),
{
    if indices.len() > 0 {
        lemma_invert_at_len(selected, indices.drop_last());
    }
}

/// Sets the selection of every listed video to `value`.
pub fn set_selection_at(selected: &mut Vec<bool>, indices: &Vec<usize>, value: bool)
    ensures
        final(selected)@ == spec_set_at(old(selected)@, indices@, value),
{
    let ghost start = selected@;
    let mut i: usize = 0;
    while i < indices.len()
        invariant
            i <= indices@.len(),
            selected@ == spec_set_at(start, indices@.take(i as int), value),
        decreases indices@.len() - i,
    {
        assert(indices@.take(i + 1).drop_last() =~= indices@.take(i as int));
        let k = indices[i];
        if k < selected.len() {
            selected.set(k, value);
        }
        i = i + 1;
    }
    assert(indices@.take(indices@.len() as int) =~= indices@);
}

/// Flips the selection of every listed video.
pub fn invert_selection_at(selected: &mut Vec<bool>, indices: &Vec<usize>)
    ensures
        final(selected)@ == spec_invert_at(old(selected)@, indices@),
{
    let ghost start = selected@;
    let mut i: usize = 0;
    while i < indices.len()
        invariant
            i <= indices@.len(),
            selected@ == spec_invert_at(start, indices@.take(i as int)),
        decreases indices@.len() - i,
    {
        assert(indices@.take(i + 1).drop_last() =~= indices@.take(i as int));
        let k = indices[i];
        toggle_selected(selected, k);
        i = i + 1;
    }
    assert(indices@.take(indices@.len() as int) =~= indices@);
}

/// How many times `j` is listed in `indices`.
pub open spec fn occurrences(indices: Seq<usize>, j: int) -> nat
    decreases indices.len(),
{
    if indices.len() == 0 {
        0
    } else {
        occurrences(indices.drop_last(), j) + if indices.last() as int == j {
            1nat
        } else {
            0nat
        }
    }
}

/// After inverting, an entry is flipped exactly when its index is listed
/// an odd number of times.
proof fn lemma_invert_at_entry(s: Seq<bool>, indices: Seq<usize>, j: int)
    requires
        0 <= j < s.len(),
    ensures
        spec_invert_at(s, indices).len() == s.len(),
        spec_invert_at(s, indices)[j] == (s[j] != (occurrences(indices, j) % 2 == 1)),
    decreases indices.len(),
{
    lemma_invert_at_len(s, indices);
    if indices.len() > 0 {
        lemma_invert_at_entry(s, indices.drop_last(), j);
        lemma_invert_at_len(s, indices.drop_last());
    }
}

/// After setting, an entry holds `value` exactly when its index is listed.
proof fn lemma_set_at_entry(s: Seq<bool>, indices: Seq<usize>, value: bool, j: int)
    requires
        0 <= j < s.len(),
    ensures
        spec_set_at(s, indices, value).len() == s.len(),
        spec_set_at(s, indices, value)[j] == if occurrences(indices, j) > 0 {
            value
        } else {
            s[j]
        },
    decreases indices.len(),
{
    lemma_set_at_len(s, indices, value);
    if indices.len() > 0 {
        lemma_set_at_entry(s, indices.drop_last(), value, j);
        lemma_set_at_len(s, indices.drop_last(), value);
    }
}

/// Inverting the same videos twice (pressing Invert twice on one filter)
/// restores the selection.
pub proof fn lemma_invert_twice(selected: Seq<bool>, indices: Seq<usize>)
    ensures
        spec_invert_at(spec_invert_at(selected, indices), indices) == selected,
{
    let once = spec_invert_at(selected, indices);
    lemma_invert_at_len(selected, indices);
    lemma_invert_at_len(once, indices);
    assert forall|j: int| 0 <= j < selected.len() implies #[trigger] spec_invert_at(once, indices)[j]
        == selected[j] by {
        lemma_invert_at_entry(selected, indices, j);
        lemma_invert_at_entry(once, indices, j);
    }
    assert(spec_invert_at(once, indices) =~= selected);
}

/// Selecting (or deselecting) the same videos again changes nothing.
pub proof fn lemma_set_twice(selected: Seq<bool>, indices: Seq<usize>, value: bool)
    ensures
        spec_set_at(spec_set_at(selected, indices, value), indices, value) == spec_set_at(
            selected,
            indices,
            value,
        ),
{
    let once = spec_set_at(selected, indices, value);
    lemma_set_at_len(selected, indices, value);
    lemma_set_at_len(once, indices, value);
    assert forall|j: int| 0 <= j < selected.len() implies #[trigger] spec_set_at(once, indices, value)[j]
        == once[j] by {
        lemma_set_at_entry(selected, indices, value, j);
        lemma_set_at_entry(once, indices, value, j);
    }
    assert(spec_set_at(once, indices, value) =~= once);
}

/// How many entries are `true`.
pub open spec fn count_true(s: Seq<bool>) -> nat
    decreases s.len(),
{
    if s.len() == 0 {
        0
    } else {
        count_true(s.drop_last()) + if s.last() { 1nat } else { 0nat }
    }
}

/// How many videos are selected.
pub fn selected_count(selected: &Vec<bool>) -> (r: usize)
    ensures
        r == count_true(selected@),
{
    let mut n: usize = 0;
    let mut i: usize = 0;
    while i < selected.len()
        invariant
            i <= selected@.len(),
            n == count_true(selected@.take(i as int)),
            n <= i,
        decreases selected@.len() - i,
    {
        assert(selected@.take(i + 1).drop_last() =~= selected@.take(i as int));
        if selected[i] {
            n = n + 1;
        }
        i = i + 1;
    }
    assert(selected@.take(selected@.len() as int) =~= selected@);
    n
}

/// A fresh selection for a resolved playlist: every video selected.
pub fn select_all(n: usize) -> (r: Vec<bool>)
    ensures
        r@ == Seq::new(n as nat, |i: int| true),
{
    let mut r: Vec<bool> = Vec::new();
    let mut i: usize = 0;
    while i < n
        invariant
            i <= n,
            r@ == Seq::new(i as nat, |j: int| true),
        decreases n - i,
    {
        r.push(true);
        i = i + 1;
        assert(r@ =~= Seq::new(i as nat, |j: int| true));
    }
    r
}

// ---------------------------------------------------------------------------
// Preparing a batch
// ---------------------------------------------------------------------------

/// The videos whose selection flag is set, pairing videos and flags
/// position by position (the shorter list decides how many pairs there
/// are).
pub open spec fn spec_selected_videos(videos: Seq<Video>, selected: Seq<bool>) -> Seq<Video>
    decreases videos.len(),
{
    if videos.len() == 0 || selected.len() == 0 {
        Seq::empty()
    } else {
        let n = if videos.len() < selected.len() { videos.len() } else { selected.len() };
        let prev = spec_selected_videos(videos.take(n - 1), selected.take(n - 1));
        if selected[n - 1] {
            prev.push(videos[n - 1])
        } else {
            prev
        }
    }
}

proof fn lemma_selected_take(videos: Seq<Video>, selected: Seq<bool>, i: int)
    requires
        0 <= i,
        i < videos.len(),
        i < selected.len(),
    ensures
        spec_selected_videos(videos.take(i + 1), selected.take(i + 1)) == if selected[i] {
            spec_selected_videos(videos.take(i), selected.take(i)).push(videos[i])
        } else {
            spec_selected_videos(videos.take(i), selected.take(i))
        },
{
    assert(videos.take(i + 1).take(i) =~= videos.take(i));
    assert(selected.take(i + 1).take(i) =~= selected.take(i));
}

/// The selected videos, in playlist order.
pub fn selected_videos(videos: &Vec<Video>, selected: &Vec<bool>) -> (r: Vec<Video>)
    ensures
        r@ == spec_selected_videos(videos@, selected@),
{
    let n = if videos.len() < selected.len() { videos.len() } else { selected.len() };
    let mut r: Vec<Video> = Vec::new();
    let mut i: usize = 0;
    assert(videos@.take(0) =~= Seq::<Video>::empty());
    while i < n
        invariant
            i <= n,
            n <= videos@.len(),
            n <= selected@.len(),
            r@ == spec_selected_videos(videos@.take(i as int), selected@.take(i as int)),
        decreases n - i,
    {
        proof {
            lemma_selected_take(videos@, selected@, i as int);
        }
        if selected[i] {
            r.push(videos[i].clone());
        }
        i = i + 1;
    }
    proof {
        if videos@.len() <= selected@.len() {
            assert(videos@.take(n as int) =~= videos@);
            if videos@.len() > 0 {
                assert(spec_selected_videos(videos@, selected@) == spec_selected_videos(
                    videos@.take(n as int),
                    selected@.take(n as int),
                )) by {
                    lemma_selected_trunc(videos@, selected@);
                }
            }
        } else {
            assert(selected@.take(n as int) =~= selected@);
            lemma_selected_trunc(videos@, selected@);
        }
    }
    r
}

proof fn lemma_selected_trunc(videos: Seq<Video>, selected: Seq<bool>)
    ensures
        ({
            let n = if videos.len() < selected.len() { videos.len() } else { selected.len() };
            spec_selected_videos(videos, selected) == spec_selected_videos(
                videos.take(n as int),
                selected.take(n as int),
            )
        }),
{
    let n = if videos.len() < selected.len() { videos.len() } else { selected.len() };
    if n > 0 {
        assert(videos.take(n as int).take(n - 1) =~= videos.take(n - 1));
        assert(selected.take(n as int).take(n - 1) =~= selected.take(n - 1));
    } else {
        assert(videos.take(0) =~= Seq::<Video>::empty());
    }
}

/// The settings a batch downloads with: a playlist/channel gets its own
/// subfolder, named after its sanitized title, under the output directory;
/// a lone video uses the output directory as it is. Paths are joined as on
/// Windows (`windows`) or on Unix.
pub open spec fn spec_batch_settings(
    settings: SettingsModel,
    playlist_title: Seq<char>,
    is_playlist: bool,
    windows: bool,
) -> SettingsModel {
    if is_playlist {
        SettingsModel {
            output_dir: path_join_on(windows, settings.output_dir, spec_sanitize(playlist_title)),
            ..settings
        }
    } else {
        settings
    }
}

/// The settings for downloading a batch from `playlist`; see
/// `spec_batch_settings`.
pub fn batch_settings(settings: &Settings, playlist: &PlaylistInfo, windows: bool) -> (r: Settings)
    ensures
        r@ == spec_batch_settings(settings@, playlist.title@, playlist.is_playlist, windows),
{
    let mut s = settings.clone();
    if playlist.is_playlist {
        let folder = sanitize_path_component(playlist.title.as_str());
        s.output_dir = join_path_on(windows, settings.output_dir.as_str(), folder.as_str());
    }
    s
}

/// Why a batch could not be started.
#[derive(Debug, Clone, Copy, PartialEq, Eq, Structural)]
pub enum BatchError {
    /// The bundled yt-dlp was not found.
    NoYtDlp,
    /// No video is selected.
    NothingSelected,
}

/// The status line shown when yt-dlp is missing.
pub open spec fn MISSING_YTDLP() -> Seq<char> {
    "yt-dlp runtime not found -- reinstall the app (see README)"@
}

impl BatchError {
    pub open spec fn spec_message(self) -> Seq<char> {
        match self {
            BatchError::NoYtDlp => MISSING_YTDLP(),
            BatchError::NothingSelected => "Select at least one video first"@,
        }
    }

    pub fn message(self) -> (r: &'static str)
        ensures
            r@ == self.spec_message(),
    {
        match self {
            BatchError::NoYtDlp => "yt-dlp runtime not found -- reinstall the app (see README)",
            BatchError::NothingSelected => "Select at least one video first",
        }
    }
}

/// A batch ready to start: the videos to download and the settings to use.
#[derive(Debug)]
pub struct Batch {
    pub videos: Vec<Video>,
    pub settings: Settings,
}

/// Prepares a download batch: `NoYtDlp` without yt-dlp, nothing (`Ok(None)`)
/// without a playlist, `NothingSelected` when no video is selected, and
/// otherwise the selected videos with `batch_settings`.
pub fn prepare_batch(
    ytdlp_found: bool,
    playlist: Option<&PlaylistInfo>,
    selected: &Vec<bool>,
    settings: &Settings,
    windows: bool,
) -> (r: Result<Option<Batch>, BatchError>)
    ensures
        !ytdlp_found ==> r == Err::<Option<Batch>, BatchError>(BatchError::NoYtDlp),
        ytdlp_found ==> match playlist {
            None => r matches Ok(None),
            Some(p) => {
                let vs = spec_selected_videos(p.videos@, selected@);
                &&& vs.len() == 0 ==> r == Err::<Option<Batch>, BatchError>(
                    BatchError::NothingSelected,
                )
                &&& vs.len() > 0 ==> (r matches Ok(Some(b)) && b.videos@ == vs && b.settings@
                    == spec_batch_settings(settings@, p.title@, p.is_playlist, windows))
            },
        },
{
    if !ytdlp_found {
        return Err(BatchError::NoYtDlp);
    }
    let p = match playlist {
        Some(p) => p,
        None => return Ok(None),
    };
    let videos = selected_videos(&p.videos, selected);
    if videos.len() == 0 {
        return Err(BatchError::NothingSelected);
    }
    Ok(Some(Batch { videos, settings: batch_settings(settings, p, windows) }))
}

/// A fresh queue row for each video, in order.
pub fn new_items(videos: &Vec<Video>) -> (r: Vec<DownloadItem>)
    ensures
        r@.len() == videos@.len(),
        forall|i: int|
            0 <= i < r@.len() ==> (#[trigger] r@[i]).video == videos@[i] && r@[i].state
                == DownloadState::Queued && r@[i].log@.len() == 0 && r@[i].last_progress is None,
{
    let mut r: Vec<DownloadItem> = Vec::new();
    let mut i: usize = 0;
    while i < videos.len()
        invariant
            i <= videos@.len(),
            r@.len() == i,
            forall|j: int|
                0 <= j < i ==> (#[trigger] r@[j]).video == videos@[j] && r@[j].state
                    == DownloadState::Queued && r@[j].log@.len() == 0 && r@[j].last_progress is None,
        decreases videos@.len() - i,
    {
        r.push(DownloadItem::new(videos[i].clone()));
        i = i + 1;
    }
    r
}

// ---------------------------------------------------------------------------
// Folding queue events into the rows
// ---------------------------------------------------------------------------

/// The state a (non-log) event moves its item to.
pub open spec fn spec_event_state(e: DownloadEvent) -> Option<DownloadState> {
    match e {
        DownloadEvent::Started(_) => Some(DownloadState::Starting),
        DownloadEvent::Progress(_, p) => Some(DownloadState::Downloading(p)),
        DownloadEvent::PostProcessing(_) => Some(DownloadState::PostProcessing),
        DownloadEvent::Log(_, _) => None,
        DownloadEvent::Finished(_, Ok(())) => Some(DownloadState::Done),
        DownloadEvent::Finished(_, Err(m)) => Some(DownloadState::Failed(m)),
        DownloadEvent::Skipped(_) => Some(DownloadState::Skipped),
        DownloadEvent::Cancelled(_) => Some(DownloadState::Cancelled),
        DownloadEvent::Paused(_) => Some(DownloadState::Paused),
    }
}

/// An item after `set_state(s)`.
pub open spec fn with_state(item: DownloadItem, s: DownloadState) -> DownloadItem {
    DownloadItem {
        last_progress: match s {
            DownloadState::Downloading(p) => Some(p),
            _ => item.last_progress,
        },
        state: s,
        ..item
    }
}

/// Whether every item has reached a terminal state.
pub open spec fn all_terminal(items: Seq<DownloadItem>) -> bool {
    forall|i: int| 0 <= i < items.len() ==> (#[trigger] items[i]).state.spec_is_terminal()
}

/// The batch is complete once it is non-empty and every row is terminal;
/// log lines never complete it.
pub open spec fn completes_batch(items: Seq<DownloadItem>, e: DownloadEvent) -> bool {
    !(e is Log) && items.len() > 0 && all_terminal(items)
}

/// The rows and the batch flag after one queue event: a log line goes to
/// its item's log, any other event moves its item to `spec_event_state`
/// (events for an index past the end change no row), every other row stays
/// as it was; `r` says whether this event just completed the batch, which
/// happens once per batch: the flag is set then and stays set.
pub open spec fn event_applied(
    items: Seq<DownloadItem>,
    done: bool,
    event: DownloadEvent,
    items2: Seq<DownloadItem>,
    done2: bool,
    r: bool,
) -> bool {
    &&& items2.len() == items.len()
    &&& forall|j: int|
        0 <= j < items.len() && j != event.spec_index() ==> #[trigger] items2[j] == items[j]
    &&& event.spec_index() < items.len() ==> ({
        let i = event.spec_index() as int;
        let before = items[i];
        let after = items2[i];
        match event {
            DownloadEvent::Log(_, line) => after.video == before.video && after.state
                == before.state && after.last_progress == before.last_progress && after.log@
                == log_after_push(before.log@, line),
            _ => after == with_state(before, spec_event_state(event).unwrap()),
        }
    })
    &&& r == (!done && completes_batch(items2, event))
    &&& done2 == (done || r)
}

/// Folds one queue event into the rows; returns whether it just completed
/// the batch (the moment to record it in the history). See
/// `event_applied`.
pub fn apply_event(items: &mut Vec<DownloadItem>, batch_done: &mut bool, event: DownloadEvent) -> (r:
    bool)
    ensures
        event_applied(old(items)@, *old(batch_done), event, final(items)@, *final(batch_done), r),
{
    let index = event_index(&event);
    match event {
        DownloadEvent::Log(i, line) => {
            if i < items.len() {
                let mut item = items.remove(i);
                item.push_log(line);
                items.insert(i, item);
            }
            return false;
        },
        _ => {},
    }
    let state = match event {
        DownloadEvent::Started(_) => DownloadState::Starting,
        DownloadEvent::Progress(_, p) => DownloadState::Downloading(p),
        DownloadEvent::PostProcessing(_) => DownloadState::PostProcessing,
        DownloadEvent::Finished(_, Ok(())) => DownloadState::Done,
        DownloadEvent::Finished(_, Err(m)) => DownloadState::Failed(m),
        DownloadEvent::Skipped(_) => DownloadState::Skipped,
        DownloadEvent::Cancelled(_) => DownloadState::Cancelled,
        DownloadEvent::Paused(_) => DownloadState::Paused,
        DownloadEvent::Log(_, _) => DownloadState::Queued,
    };
    if index < items.len() {
        let mut item = items.remove(index);
        item.set_state(state);
        items.insert(index, item);
    }
    if !*batch_done && items.len() > 0 && every_terminal(items) {
        *batch_done = true;
        return true;
    }
    false
}

fn event_index(e: &DownloadEvent) -> (r: usize)
    ensures
        r == e.spec_index(),
{
    match e {
        DownloadEvent::Started(i) => *i,
        DownloadEvent::Progress(i, _) => *i,
        DownloadEvent::PostProcessing(i) => *i,
        DownloadEvent::Log(i, _) => *i,
        DownloadEvent::Finished(i, _) => *i,
        DownloadEvent::Skipped(i) => *i,
        DownloadEvent::Cancelled(i) => *i,
        DownloadEvent::Paused(i) => *i,
    }
}

/// Whether every row is terminal.
pub fn every_terminal(items: &Vec<DownloadItem>) -> (b: bool)
    ensures
        b == all_terminal(items@),
{
    let mut i: usize = 0;
    while i < items.len()
        invariant
            i <= items@.len(),
            forall|j: int| 0 <= j < i ==> (#[trigger] items@[j]).state.spec_is_terminal(),
        decreases items@.len() - i,
    {
        if !items[i].state.is_terminal() {
            return false;
        }
        i = i + 1;
    }
    true
}

} // verus!
