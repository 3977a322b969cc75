//! Everything about talking to yt-dlp that is not the talking itself: where
//! the bundled interpreter lives, the argument list for one download, the
//! structured progress lines we ask yt-dlp to print and how they are read
//! back, and how its `--dump-single-json` output becomes a playlist.
//! Running the processes is left to the caller.

use vstd::prelude::*;

use crate::config::{Settings, SettingsModel, app_data_dir, archive_path_in, is_archive_path_for};
use crate::models::MediaMode;
use crate::settings_fields::SettingsField;
use crate::json::{
    JsonValue, json_get, json_as_str, json_as_array, opt_str, opt_u64, opt_rounded, get_str,
    json_of, parse_json,
};
use crate::models::{
    VideoModel, PlaylistModel, video_views,
    DownloadProgress, DownloadProgressModel, PlaylistInfo, Video, spec_format_duration,
    format_duration,
};
use crate::paths::{
    has_drive, is_win_sep, join_path_on, path_join, path_join_on, target_is_windows, win_path_join,
};
use crate::text::{
    chars_of, concat, dec, digits_value, all_digits, fmt_tenths, fmt_tenths_exec, has_prefix,
    round_tenths, round_tenths_exec, split_char, split_on, starts_with, string_of,
    u64_to_string, views, str_eq, replace_chars, replace_all, words, digit_value, is_digit,
    trim, trim_str,
};

verus! {

// ---------------------------------------------------------------------------
// Progress templates
// ---------------------------------------------------------------------------

/// Marker prefix of our download progress lines, so they can be picked out
/// of yt-dlp's otherwise free-form stdout.
pub const DL_MARKER: &'static str = "@YDT-DL@";

/// Marker prefix of our post-processing progress lines.
pub const PP_MARKER: &'static str = "@YDT-PP@";

/// The tab-separated fields of a download progress line, after the marker.
pub open spec fn dl_fields_template() -> Seq<char> {
    "%(progress.status)s\t%(progress.downloaded_bytes)s\t%(progress.total_bytes)s\t%(progress.total_bytes_estimate)s\t%(progress.speed)s\t%(progress.eta)s"@
}

pub open spec fn spec_dl_template() -> Seq<char> {
    DL_MARKER@ + dl_fields_template()
}

pub open spec fn spec_pp_template() -> Seq<char> {
    PP_MARKER@ + "%(progress.status)s"@
}

/// The `--progress-template` for downloads.
pub fn dl_template() -> (r: String)
    ensures
        r@ == spec_dl_template(),
{
    concat(
        DL_MARKER,
        "%(progress.status)s\t%(progress.downloaded_bytes)s\t%(progress.total_bytes)s\t%(progress.total_bytes_estimate)s\t%(progress.speed)s\t%(progress.eta)s",
    )
}

/// The `--progress-template` for post-processing.
pub fn pp_template() -> (r: String)
    ensures
        r@ == spec_pp_template(),
{
    concat(PP_MARKER, "%(progress.status)s")
}

// ---------------------------------------------------------------------------
// Tools
// ---------------------------------------------------------------------------

/// A JavaScript engine yt-dlp can shell out to in order to solve YouTube's
/// per-video signature/challenge puzzles. `deno` is the only one yt-dlp will
/// use automatically; anything else has to be pointed out explicitly, which
/// is what `to_arg` is for.
#[derive(Debug)]
pub struct JsRuntime {
    pub name: &'static str,
    pub path: String,
}

impl Clone for JsRuntime {
    fn clone(&self) -> (r: Self)
        ensures
            r.name@ == self.name@,
            r.path@ == self.path@,
    {
        JsRuntime { name: self.name, path: self.path.clone() }
    }
}

impl JsRuntime {
    /// `name:path`, the value of `--js-runtimes`.
    pub open spec fn spec_to_arg(&self) -> Seq<char> {
        self.name@ + ":"@ + self.path@
    }

    pub fn to_arg(&self) -> (r: String)
        ensures
            r@ == self.spec_to_arg(),
    {
        let a = concat(self.name, ":");
        concat(a.as_str(), self.path.as_str())
    }
}

/// The JS runtimes we look for, in order of preference.
pub open spec fn spec_js_runtime_names() -> Seq<Seq<char>> {
    seq!["deno"@, "node"@, "bun"@]
}

pub fn js_runtime_names() -> (r: Vec<&'static str>)
    ensures
        r@.len() == 3,
        forall|i: int| 0 <= i < 3 ==> r@[i]@ == spec_js_runtime_names()[i],
{
    vec!["deno", "node", "bun"]
}

/// Picks the first runtime that was found: `found[i]` is where
/// `js_runtime_names()[i]` was found, if anywhere. Prefers `deno` (yt-dlp's
/// own default choice when present) but happily uses `node` or `bun`.
pub fn resolve_js_runtime(found: Vec<Option<String>>) -> (r: Option<JsRuntime>)
    ensures
        match r {
            Some(js) => exists|i: int|
                0 <= i < 3 && i < found@.len() && found@[i] is Some && js.name@
                    == spec_js_runtime_names()[i] && js.path == found@[i]->0 && (forall|j: int|
                    0 <= j < i ==> found@[j] is None),
            None => forall|j: int| 0 <= j < 3 && j < found@.len() ==> found@[j] is None,
        },
{
    let names = js_runtime_names();
    let mut i: usize = 0;
    while i < 3 && i < found.len()
        invariant
            names@.len() == 3,
            forall|k: int| 0 <= k < 3 ==> names@[k]@ == spec_js_runtime_names()[k],
            i <= 3,
            i <= found@.len(),
            forall|j: int| 0 <= j < i ==> found@[j] is None,
        decreases 3 - i,
    {
        match &found[i] {
            Some(p) => {
                let js = JsRuntime { name: names[i], path: p.clone() };
                assert(found@[i as int] is Some && js.name@ == spec_js_runtime_names()[i as int]
                    && js.path == found@[i as int]->0);
                return Some(js);
            },
            None => {},
        }
        i = i + 1;
    }
    None
}

/// Our bundled `yt-dlp`: a specific pinned Python interpreter paired with
/// our vendored copy of yt-dlp's source, run as `python -m yt_dlp`.
#[derive(Debug)]
pub struct YtDlp {
    pub python_path: String,
    pub src_dir: String,
}

impl Clone for YtDlp {
    fn clone(&self) -> (r: Self)
        ensures
            r == *self,
    {
        YtDlp { python_path: self.python_path.clone(), src_dir: self.src_dir.clone() }
    }
}

#[derive(Debug, Default)]
pub struct BinaryStatus {
    pub ytdlp: Option<YtDlp>,
    pub ytdlp_version: Option<String>,
    pub ffmpeg_path: Option<String>,
    pub js_runtime: Option<JsRuntime>,
}

impl BinaryStatus {
    /// Downloads can start once yt-dlp itself was found and runs.
    pub fn ready(&self) -> (b: bool)
        ensures
            b == self.ytdlp is Some,
    {
        self.ytdlp.is_some()
    }
}

/// Where the installer puts the bundled interpreter, relative to the
/// directory holding our executable: `python-runtime/python.exe` on Windows,
/// `python-runtime/bin/python3` elsewhere.
pub open spec fn spec_bundled_python_path(exe_dir: Seq<char>, windows: bool) -> Seq<char> {
    let runtime_dir = path_join_on(windows, exe_dir, "python-runtime"@);
    if windows {
        path_join_on(windows, runtime_dir, "python.exe"@)
    } else {
        path_join_on(windows, path_join_on(windows, runtime_dir, "bin"@), "python3"@)
    }
}

pub fn bundled_python_path(exe_dir: &str, windows: bool) -> (r: String)
    ensures
        r@ == spec_bundled_python_path(exe_dir@, windows),
{
    let runtime_dir = join_path_on(windows, exe_dir, "python-runtime");
    if windows {
        join_path_on(windows, runtime_dir.as_str(), "python.exe")
    } else {
        let bin = join_path_on(windows, runtime_dir.as_str(), "bin");
        join_path_on(windows, bin.as_str(), "python3")
    }
}

/// Where the installer puts the vendored yt-dlp source: `yt_dlp_src` next
/// to our executable.
pub fn bundled_ytdlp_src_dir(exe_dir: &str, windows: bool) -> (r: String)
    ensures
        r@ == path_join_on(windows, exe_dir@, "yt_dlp_src"@),
{
    join_path_on(windows, exe_dir, "yt_dlp_src")
}

// ---------------------------------------------------------------------------
// Human-readable sizes and durations
// ---------------------------------------------------------------------------

/// 1024 to the power `u`.
pub open spec fn pow1024(u: nat) -> nat
    decreases u,
{
    if u == 0 {
        1
    } else {
        1024 * pow1024((u - 1) as nat)
    }
}

/// The unit `human_bytes` picks: the largest `u <= 4` with `1024^u <= bytes`
/// (0 for fewer than 1024 bytes).
pub open spec fn byte_unit(bytes: nat) -> nat {
    if bytes >= pow1024(4) {
        4
    } else if bytes >= pow1024(3) {
        3
    } else if bytes >= pow1024(2) {
        2
    } else if bytes >= pow1024(1) {
        1
    } else {
        0
    }
}

pub open spec fn unit_name(u: nat) -> Seq<char> {
    if u == 0 {
        "B"@
    } else if u == 1 {
        "KiB"@
    } else if u == 2 {
        "MiB"@
    } else if u == 3 {
        "GiB"@
    } else {
        "TiB"@
    }
}

/// `512B`, `2.0KiB`, `5.0MiB`: whole bytes below 1 KiB, else the value in
/// the largest binary unit up to TiB that it reaches, with one decimal.
pub open spec fn spec_human_bytes(bytes: nat) -> Seq<char> {
    let u = byte_unit(bytes);
    if u == 0 {
        dec(bytes) + "B"@
    } else {
        fmt_tenths(round_tenths(bytes, pow1024(u))) + unit_name(u)
    }
}

pub fn human_bytes(bytes: u64) -> (r: String)
    ensures
        r@ == spec_human_bytes(bytes as nat),
{
    proof {
        reveal_with_fuel(pow1024, 5);
    }
    let b = bytes as u128;
    let (u, den, name): (u64, u128, &str) = if b >= 1024 * 1024 * 1024 * 1024 {
        (4, 1024 * 1024 * 1024 * 1024, "TiB")
    } else if b >= 1024 * 1024 * 1024 {
        (3, 1024 * 1024 * 1024, "GiB")
    } else if b >= 1024 * 1024 {
        (2, 1024 * 1024, "MiB")
    } else if b >= 1024 {
        (1, 1024, "KiB")
    } else {
        (0, 1, "B")
    };
    assert(u as nat == byte_unit(bytes as nat));
    assert(den as nat == pow1024(u as nat));
    assert(name@ == unit_name(u as nat));
    if u == 0 {
        concat(u64_to_string(bytes).as_str(), "B")
    } else {
        let t = round_tenths_exec(b, den);
        concat(fmt_tenths_exec(t).as_str(), name)
    }
}

/// Same rendering as `models::format_duration`.
pub fn human_duration(total_secs: u64) -> (r: String)
    ensures
        r@ == spec_format_duration(total_secs as nat),
{
    format_duration(total_secs)
}


// ---------------------------------------------------------------------------
// Progress lines
// ---------------------------------------------------------------------------

/// A structured event recovered from one line of yt-dlp stdout.
#[derive(Debug, PartialEq)]
pub enum ProgressLine {
    Downloading(DownloadProgress),
    Finished,
    PostProcessing,
    Other,
}

/// The mathematical view of `ProgressLine`.
pub enum ProgressLineModel {
    Downloading(DownloadProgressModel),
    Finished,
    PostProcessing,
    Other,
}

impl View for ProgressLine {
    type V = ProgressLineModel;

    open spec fn view(&self) -> ProgressLineModel {
        match self {
            ProgressLine::Downloading(p) => ProgressLineModel::Downloading(p@),
            ProgressLine::Finished => ProgressLineModel::Finished,
            ProgressLine::PostProcessing => ProgressLineModel::PostProcessing,
            ProgressLine::Other => ProgressLineModel::Other,
        }
    }
}

/// A decimal number as yt-dlp prints one -- an optional sign, digits, and
/// at most one `.` (digits on at least one side) -- rounded to the nearest
/// whole number with halves away from zero, negatives becoming 0 and
/// anything beyond `u64::MAX` becoming `u64::MAX`. `None` for any other text.
pub open spec fn spec_parse_decimal(s: Seq<char>) -> Option<u64> {
    let neg = s.len() > 0 && s[0] == '-';
    let body = if s.len() > 0 && (s[0] == '+' || s[0] == '-') { s.drop_first() } else { s };
    let parts = split_on(body, '.');
    let int_part = parts[0];
    let frac = if parts.len() == 2 { parts[1] } else { Seq::<char>::empty() };
    if parts.len() <= 2 && all_digits(int_part) && all_digits(frac) && int_part.len() + frac.len()
        >= 1 {
        let up: nat = if frac.len() > 0 && frac[0] >= '5' { 1 } else { 0 };
        let v = digits_value(int_part) + up;
        if neg {
            Some(0)
        } else if v > u64::MAX {
            Some(u64::MAX)
        } else {
            Some(v as u64)
        }
    } else {
        None
    }
}

/// A numeric progress field: `None` when empty, `NA` or `None`, else the
/// number rounded to a whole count (yt-dlp prints byte counts as integers but
/// speed and eta as decimals).
pub open spec fn spec_parse_bytes(s: Seq<char>) -> Option<u64> {
    if s.len() == 0 || s == "NA"@ || s == "None"@ {
        None
    } else {
        spec_parse_decimal(s)
    }
}

pub open spec fn min_u64(v: nat) -> nat {
    if v > u64::MAX { u64::MAX as nat } else { v }
}

/// The value of the digits `s`, or `u64::MAX` if it is larger.
pub(crate) fn digits_saturating(s: &[char]) -> (r: u64)
    requires
        all_digits(s@),
    ensures
        r as nat == min_u64(digits_value(s@)),
{
    let cap: u128 = 0x1_0000_0000_0000_0000;
    let mut acc: u128 = 0;
    let mut i: usize = 0;
    assert(s@.take(0) =~= Seq::<char>::empty());
    while i < s.len()
        invariant
            i <= s@.len(),
            all_digits(s@),
            cap == 0x1_0000_0000_0000_0000u128,
            acc <= cap,
            acc == (if digits_value(s@.take(i as int)) >= cap { cap as nat } else { digits_value(
                s@.take(i as int),
            ) }),
        decreases s@.len() - i,
    {
        let c = s[i];
        assert(is_digit(s@[i as int]));
        let d = (c as u32 - '0' as u32) as u128;
        assert(s@.take(i + 1).drop_last() =~= s@.take(i as int));
        assert(digits_value(s@.take(i + 1)) == digits_value(s@.take(i as int)) * 10 + digit_value(c));
        if acc < cap {
            let next = acc * 10 + d;
            acc = if next >= cap { cap } else { next };
        }
        i = i + 1;
    }
    assert(s@.take(s@.len() as int) =~= s@);
    if acc >= cap {
        u64::MAX
    } else {
        acc as u64
    }
}

/// `parse_bytes` on the text of a decimal number: see `spec_parse_decimal`.
pub fn parse_decimal(s: &[char]) -> (r: Option<u64>)
    ensures
        r == spec_parse_decimal(s@),
{
    let neg = s.len() > 0 && s[0] == '-';
    let mut body: Vec<char> = Vec::new();
    let start: usize = if s.len() > 0 && (s[0] == '+' || s[0] == '-') { 1 } else { 0 };
    let mut i: usize = start;
    while i < s.len()
        invariant
            start <= i <= s@.len(),
            body@ == s@.subrange(start as int, i as int),
        decreases s@.len() - i,
    {
        body.push(s[i]);
        i = i + 1;
        assert(body@ =~= s@.subrange(start as int, i as int));
    }
    assert(body@ =~= (if s@.len() > 0 && (s@[0] == '+' || s@[0] == '-') { s@.drop_first() } else { s@ }));
    let parts = split_char(body.as_slice(), '.');
    proof {
        crate::text::lemma_split_on_nonempty(body@, '.');
    }
    if parts.len() > 2 {
        return None;
    }
    let int_part = chars_of(parts[0].as_str());
    let frac = if parts.len() == 2 { chars_of(parts[1].as_str()) } else { Vec::new() };
    assert(views(parts@)[0] == parts@[0]@);
    assert(parts@.len() == 2 ==> views(parts@)[1] == parts@[1]@);
    if !all_digits_exec(int_part.as_slice()) || !all_digits_exec(frac.as_slice()) || (
    int_part.len() == 0 && frac.len() == 0) {
        return None;
    }
    let up: u64 = if frac.len() > 0 && frac[0] >= '5' { 1 } else { 0 };
    let v = digits_saturating(int_part.as_slice());
    if neg {
        Some(0)
    } else if v == u64::MAX {
        Some(u64::MAX)
    } else {
        Some(v + up)
    }
}

pub(crate) fn all_digits_exec(s: &[char]) -> (r: bool)
    ensures
        r == all_digits(s@),
{
    let mut i: usize = 0;
    while i < s.len()
        invariant
            i <= s@.len(),
            forall|j: int| 0 <= j < i ==> is_digit(#[trigger] s@[j]),
        decreases s@.len() - i,
    {
        if !('0' <= s[i] && s[i] <= '9') {
            assert(!is_digit(s@[i as int]));
            return false;
        }
        i = i + 1;
    }
    true
}

/// Parses a numeric progress field: see `spec_parse_bytes`.
pub fn parse_bytes(s: &str) -> (r: Option<u64>)
    ensures
        r == spec_parse_bytes(s@),
{
    let v = chars_of(s);
    if v.len() == 0 || str_eq(s, "NA") || str_eq(s, "None") {
        None
    } else {
        parse_decimal(v.as_slice())
    }
}

/// The fields of a download progress line (what follows the marker).
pub open spec fn progress_fields(line: Seq<char>) -> Seq<Seq<char>> {
    split_on(line.skip(DL_MARKER@.len() as int), '\t')
}

/// What one line of yt-dlp stdout means: a download progress line (marker,
/// then six tab-separated fields: status, downloaded, total, estimated
/// total, speed, eta) is `Finished` when the status says so and otherwise
/// `Downloading`, with the total falling back to the estimate and the
/// percentage computed from the byte counts; a post-processing line is
/// `PostProcessing`; anything else, including a download line with fewer
/// than six fields, is `Other`.
pub open spec fn spec_parse_progress_line(line: Seq<char>) -> ProgressLineModel {
    if starts_with(line, DL_MARKER@) {
        let f = progress_fields(line);
        if f.len() >= 6 {
            if f[0] == "finished"@ {
                ProgressLineModel::Finished
            } else {
                let downloaded = spec_parse_bytes(f[1]);
                let total = match spec_parse_bytes(f[2]) {
                    Some(t) => Some(t),
                    None => spec_parse_bytes(f[3]),
                };
                let percent_tenths: u128 = match (downloaded, total) {
                    (Some(d), Some(t)) => if t > 0 {
                        round_tenths(d as nat * 100, t as nat) as u128
                    } else {
                        0
                    },
                    _ => 0,
                };
                ProgressLineModel::Downloading(
                    DownloadProgressModel {
                        percent_tenths: percent_tenths,
                        speed: match spec_parse_bytes(f[4]) {
                            Some(b) => Some(spec_human_bytes(b as nat) + "/s"@),
                            None => None,
                        },
                        eta: match spec_parse_bytes(f[5]) {
                            Some(e) => Some(spec_format_duration(e as nat)),
                            None => None,
                        },
                        downloaded_bytes: downloaded,
                        total_bytes: total,
                    },
                )
            }
        } else {
            ProgressLineModel::Other
        }
    } else if starts_with(line, PP_MARKER@) {
        ProgressLineModel::PostProcessing
    } else {
        ProgressLineModel::Other
    }
}

/// Parse one line of yt-dlp stdout, recognizing our custom progress markers
/// and falling back to `Other` for plain log lines (still worth showing to
/// the user, just without structured progress).
pub fn parse_progress_line(line: &str) -> (r: ProgressLine)
    ensures
        r@ == spec_parse_progress_line(line@),
{
    let v = chars_of(line);
    let dl = chars_of(DL_MARKER);
    if has_prefix(v.as_slice(), dl.as_slice()) {
        let mut rest: Vec<char> = Vec::new();
        let mut i: usize = dl.len();
        while i < v.len()
            invariant
                dl@.len() <= i <= v@.len(),
                rest@ == v@.subrange(dl@.len() as int, i as int),
            decreases v@.len() - i,
        {
            rest.push(v[i]);
            i = i + 1;
            assert(rest@ =~= v@.subrange(dl@.len() as int, i as int));
        }
        assert(rest@ =~= line@.skip(DL_MARKER@.len() as int));
        let fields = split_char(rest.as_slice(), '\t');
        if fields.len() >= 6 {
            assert(forall|k: int| 0 <= k < fields@.len() ==> views(fields@)[k] == fields@[k]@);
            if str_eq(fields[0].as_str(), "finished") {
                return ProgressLine::Finished;
            }
            let downloaded = parse_bytes(fields[1].as_str());
            let total = match parse_bytes(fields[2].as_str()) {
                Some(t) => Some(t),
                None => parse_bytes(fields[3].as_str()),
            };
            let speed_bytes = parse_bytes(fields[4].as_str());
            let eta_secs = parse_bytes(fields[5].as_str());
            let percent_tenths: u128 = match (downloaded, total) {
                (Some(d), Some(t)) => if t > 0 {
                    round_tenths_exec(d as u128 * 100, t as u128)
                } else {
                    0
                },
                _ => 0,
            };
            let speed = match speed_bytes {
                Some(b) => Some(concat(human_bytes(b).as_str(), "/s")),
                None => None,
            };
            let eta = match eta_secs {
                Some(e) => Some(human_duration(e)),
                None => None,
            };
            return ProgressLine::Downloading(
                DownloadProgress {
                    percent_tenths,
                    speed,
                    eta,
                    downloaded_bytes: downloaded,
                    total_bytes: total,
                },
            );
        }
        return ProgressLine::Other;
    }
    let pp = chars_of(PP_MARKER);
    if has_prefix(v.as_slice(), pp.as_slice()) {
        return ProgressLine::PostProcessing;
    }
    ProgressLine::Other
}


// ---------------------------------------------------------------------------
// Playlist metadata
// ---------------------------------------------------------------------------

/// Why a URL resolved to no playlist.
#[derive(Debug, PartialEq, Eq)]
pub enum PlaylistError {
    /// yt-dlp's output was not JSON (serde_json's error text is given).
    NotJson(String),
    /// Neither an `entries` list nor the document itself held a usable video.
    NoVideos,
}

impl PlaylistError {
    pub open spec fn spec_message(&self) -> Seq<char> {
        match self {
            PlaylistError::NotJson(e) => "yt-dlp returned output that could not be parsed as JSON: "@
                + e@,
            PlaylistError::NoVideos => "no downloadable videos were found at that URL"@,
        }
    }

    /// The message shown for this failure.
    pub fn message(&self) -> (r: String)
        ensures
            r@ == self.spec_message(),
    {
        match self {
            PlaylistError::NotJson(e) => concat(
                "yt-dlp returned output that could not be parsed as JSON: ",
                e.as_str(),
            ),
            PlaylistError::NoVideos => String::from_str("no downloadable videos were found at that URL"),
        }
    }
}

/// The uploader: the `uploader` member when it exists (as a string, or
/// nothing when it is not one), else the `channel` member.
pub open spec fn spec_uploader(v: JsonValue) -> Option<Seq<char>> {
    match json_get(v, "uploader"@) {
        Some(x) => json_as_str(x),
        None => opt_str(json_get(v, "channel"@)),
    }
}

/// A video's page: `webpage_url`, else an `http...` `url`, else the YouTube
/// watch page for `id`.
pub open spec fn spec_video_url(entry: JsonValue, id: Seq<char>) -> Seq<char> {
    match opt_str(json_get(entry, "webpage_url"@)) {
        Some(u) => u,
        None => match opt_str(json_get(entry, "url"@)) {
            Some(u) => if starts_with(u, "http"@) {
                u
            } else {
                "https://www.youtube.com/watch?v="@ + id
            },
            None => "https://www.youtube.com/watch?v="@ + id,
        },
    }
}

/// One video from a JSON object, `None` without a string `id`. The title
/// falls back to the id, the index to `fallback_index`, and the duration
/// is rounded to whole seconds.
pub open spec fn spec_video_from_json(entry: JsonValue, fallback_index: Option<u64>) -> Option<
    VideoModel,
> {
    match opt_str(json_get(entry, "id"@)) {
        None => None,
        Some(id) => Some(
            VideoModel {
                id: id,
                title: match opt_str(json_get(entry, "title"@)) {
                    Some(t) => t,
                    None => id,
                },
                uploader: spec_uploader(entry),
                duration_secs: opt_rounded(json_get(entry, "duration"@)),
                playlist_index: match opt_u64(json_get(entry, "playlist_index"@)) {
                    Some(i) => Some(i),
                    None => fallback_index,
                },
                url: spec_video_url(entry, id),
                filesize_bytes: None,
            },
        ),
    }
}

fn uploader_of(v: &JsonValue) -> (r: Option<String>)
    ensures
        crate::models::opt_view(r) == spec_uploader(*v),
{
    match v.get("uploader") {
        Some(x) => match x.as_str() {
            Some(s) => Some(s.clone()),
            None => None,
        },
        None => match get_str(v, "channel") {
            Some(s) => Some(s.clone()),
            None => None,
        },
    }
}

fn video_from_json(entry: &JsonValue, fallback_index: Option<u64>) -> (r: Option<Video>)
    ensures
        match r {
            Some(v) => spec_video_from_json(*entry, fallback_index) == Some(v@),
            None => spec_video_from_json(*entry, fallback_index) is None,
        },
{
    let id = match get_str(entry, "id") {
        Some(s) => s.clone(),
        None => return None,
    };
    let title = match get_str(entry, "title") {
        Some(t) => t.clone(),
        None => id.clone(),
    };
    let uploader = uploader_of(entry);
    let duration_secs = match entry.get("duration") {
        Some(d) => d.as_rounded(),
        None => None,
    };
    let playlist_index = match entry.get("playlist_index") {
        Some(x) => match x.as_u64() {
            Some(i) => Some(i),
            None => fallback_index,
        },
        None => fallback_index,
    };
    let watch = concat("https://www.youtube.com/watch?v=", id.as_str());
    let url = match get_str(entry, "webpage_url") {
        Some(u) => u.clone(),
        None => match get_str(entry, "url") {
            Some(u) => {
                let uc = chars_of(u.as_str());
                let http = chars_of("http");
                if has_prefix(uc.as_slice(), http.as_slice()) {
                    u.clone()
                } else {
                    watch
                }
            },
            None => watch,
        },
    };
    Some(
        Video {
            id,
            title,
            uploader,
            duration_secs,
            playlist_index,
            url,
            filesize_bytes: None,
        },
    )
}

/// The videos of a playlist's `entries`, in order: null entries and entries
/// without an id are skipped; an entry without its own `playlist_index` gets
/// its 1-based position in the list.
pub open spec fn videos_from_entries(entries: Seq<JsonValue>) -> Seq<VideoModel>
    decreases entries.len(),
{
    if entries.len() == 0 {
        Seq::empty()
    } else {
        let prev = videos_from_entries(entries.drop_last());
        let e = entries.last();
        if e is Null {
            prev
        } else {
            match spec_video_from_json(e, Some(entries.len() as u64)) {
                Some(v) => prev.push(v),
                None => prev,
            }
        }
    }
}

/// The playlist position a video is filtered by: its index, or 1 without
/// one, cut to 32 bits.
pub open spec fn range_index(v: VideoModel) -> u32 {
    (match v.playlist_index {
        Some(i) => i,
        None => 1,
    }) as u32
}

pub open spec fn in_range(v: VideoModel, start: Option<u32>, end: Option<u32>) -> bool {
    (match start {
        Some(s) => range_index(v) >= s,
        None => true,
    }) && (match end {
        Some(e) => range_index(v) <= e,
        None => true,
    })
}

/// The videos whose position lies within `start..=end` (either bound may be
/// absent), in the order given.
pub open spec fn range_filter(vs: Seq<VideoModel>, start: Option<u32>, end: Option<u32>) -> Seq<
    VideoModel,
>
    decreases vs.len(),
{
    if vs.len() == 0 {
        Seq::empty()
    } else {
        let prev = range_filter(vs.drop_last(), start, end);
        if in_range(vs.last(), start, end) {
            prev.push(vs.last())
        } else {
            prev
        }
    }
}

/// `s` in reverse order.
pub open spec fn reversed<A>(s: Seq<A>) -> Seq<A> {
    Seq::new(s.len(), |i: int| s[s.len() - 1 - i])
}

/// Keeps only the videos whose playlist position lies within the bounds.
pub fn apply_playlist_range(videos: &mut Vec<Video>, start: Option<u32>, end: Option<u32>)
    ensures
        video_views(final(videos)@) == range_filter(video_views(old(videos)@), start, end),
{
    let mut kept: Vec<Video> = Vec::new();
    let mut i: usize = 0;
    let ghost orig = video_views(videos@);
    assert(orig.take(0) =~= Seq::<VideoModel>::empty());
    while i < videos.len()
        invariant
            orig == video_views(videos@),
            i <= videos@.len(),
            video_views(kept@) == range_filter(orig.take(i as int), start, end),
        decreases videos@.len() - i,
    {
        let v = &videos[i];
        let idx = match v.playlist_index {
            Some(x) => x,
            None => 1,
        } as u32;
        assert(orig.take(i + 1).drop_last() =~= orig.take(i as int));
        assert(orig.take(i + 1).last() == v@);
        let ok_start = match start {
            Some(s) => idx >= s,
            None => true,
        };
        let ok_end = match end {
            Some(e) => idx <= e,
            None => true,
        };
        if ok_start && ok_end {
            let ghost before = video_views(kept@);
            kept.push(v.clone());
            assert(video_views(kept@) =~= before.push(v@));
        }
        i = i + 1;
    }
    assert(orig.take(orig.len() as int) =~= orig);
    *videos = kept;
}

fn reverse_videos(videos: Vec<Video>) -> (r: Vec<Video>)
    ensures
        video_views(r@) == reversed(video_views(videos@)),
{
    let n = videos.len();
    let mut r: Vec<Video> = Vec::new();
    let mut k: usize = 0;
    let ghost orig = video_views(videos@);
    while k < n
        invariant
            n == videos@.len(),
            orig == video_views(videos@),
            k <= n,
            video_views(r@) == reversed(orig).take(k as int),
        decreases n - k,
    {
        let ghost before = video_views(r@);
        r.push(videos[n - 1 - k].clone());
        assert(video_views(r@) =~= before.push(videos@[n - 1 - k]@));
        k = k + 1;
        assert(video_views(r@) =~= reversed(orig).take(k as int));
    }
    assert(reversed(orig).take(n as int) =~= reversed(orig));
    r
}

/// The playlist a `--dump-single-json` document describes: a playlist when
/// it has an `entries` array, else a single video. `None` when that yields
/// no video at all. The playlist range and order settings apply to what was
/// found; the source URL is left empty for the caller to fill in.
pub open spec fn spec_parse_playlist(root: JsonValue, s: SettingsModel) -> Option<PlaylistModel> {
    let found = match json_as_array_opt(json_get(root, "entries"@)) {
        Some(entries) => videos_from_entries(entries),
        None => match spec_video_from_json(root, None) {
            Some(v) => seq![v],
            None => Seq::empty(),
        },
    };
    if found.len() == 0 {
        None
    } else {
        let ranged = range_filter(found, s.playlist_start, s.playlist_end);
        Some(
            PlaylistModel {
                title: match opt_str(json_get(root, "title"@)) {
                    Some(t) => t,
                    None => "Untitled"@,
                },
                uploader: spec_uploader(root),
                videos: if s.playlist_reverse {
                    reversed(ranged)
                } else {
                    ranged
                },
                is_playlist: json_as_array_opt(json_get(root, "entries"@)) is Some,
                source_url: Seq::empty(),
            },
        )
    }
}

pub open spec fn json_as_array_opt(v: Option<JsonValue>) -> Option<Seq<JsonValue>> {
    match v {
        Some(x) => json_as_array(x),
        None => None,
    }
}

/// Resolve a `--dump-single-json` document into our playlist model.
pub fn parse_playlist_json(root: &JsonValue, settings: &Settings) -> (r: Result<
    PlaylistInfo,
    PlaylistError,
>)
    ensures
        match r {
            Ok(p) => spec_parse_playlist(*root, settings@) == Some(p@),
            Err(e) => e == PlaylistError::NoVideos && spec_parse_playlist(*root, settings@) is None,
        },
{
    let title = match get_str(root, "title") {
        Some(t) => t.clone(),
        None => String::from_str("Untitled"),
    };
    let uploader = uploader_of(root);
    let mut videos: Vec<Video> = Vec::new();
    let entries_opt = match root.get("entries") {
        Some(e) => e.as_array(),
        None => None,
    };
    let is_playlist;
    match entries_opt {
        Some(entries) => {
            is_playlist = true;
            let mut i: usize = 0;
            assert(entries@.take(0) =~= Seq::<JsonValue>::empty());
            while i < entries.len()
                invariant
                    i <= entries@.len(),
                    video_views(videos@) == videos_from_entries(entries@.take(i as int)),
                decreases entries@.len() - i,
            {
                let entry = &entries[i];
                assert(entries@.take(i + 1).drop_last() =~= entries@.take(i as int));
                assert(entries@.take(i + 1).last() == *entry);
                assert(entries@.take(i + 1).len() == i + 1);
                if !entry.is_null() {
                    let ghost before = video_views(videos@);
                    match video_from_json(entry, Some(i as u64 + 1)) {
                        Some(v) => {
                            videos.push(v);
                            assert(video_views(videos@) =~= before.push(videos@.last()@));
                        },
                        None => {},
                    }
                }
                i = i + 1;
            }
            assert(entries@.take(entries@.len() as int) =~= entries@);
        },
        None => {
            is_playlist = false;
            // A single video URL was given rather than a playlist -- no
            // playlist_index, so it won't get a spurious "1 - " prefix.
            match video_from_json(root, None) {
                Some(v) => {
                    videos.push(v);
                    assert(video_views(videos@) =~= seq![videos@[0]@]);
                },
                None => {
                    assert(video_views(videos@) =~= Seq::<VideoModel>::empty());
                },
            }
        },
    }
    if videos.len() == 0 {
        return Err(PlaylistError::NoVideos);
    }
    apply_playlist_range(&mut videos, settings.playlist_start, settings.playlist_end);
    let videos = if settings.playlist_reverse {
        reverse_videos(videos)
    } else {
        videos
    };
    Ok(PlaylistInfo { title, uploader, videos, is_playlist, source_url: String::new() })
}


// ---------------------------------------------------------------------------
// Download arguments
// ---------------------------------------------------------------------------

/// What `{index}` expands to: `"N - "` for a playlist entry, nothing for a
/// lone video.
pub open spec fn index_prefix(index: Option<u64>) -> Seq<char> {
    match index {
        Some(i) => dec(i as nat) + " - "@,
        None => Seq::empty(),
    }
}

/// The template with every `{index}` replaced by `index_prefix`.
pub open spec fn spec_render_filename_template(template: Seq<char>, index: Option<u64>) -> Seq<
    char,
> {
    replace_all(template, "{index}"@, index_prefix(index))
}

proof fn lemma_index_prefix_free(n1: u64, n2: u64, x: Seq<char>, y: Seq<char>)
    requires
        index_prefix(Some(n1)) + x == index_prefix(Some(n2)) + y,
    ensures
        n1 == n2,
{
    let d1 = dec(n1 as nat);
    let d2 = dec(n2 as nat);
    crate::text::lemma_dec_digits(n1 as nat);
    crate::text::lemma_dec_digits(n2 as nat);
    reveal_strlit(" - ");
    let s1 = index_prefix(Some(n1)) + x;
    let s2 = index_prefix(Some(n2)) + y;
    assert(s1 == d1 + (" - "@ + x));
    assert(s2 == d2 + (" - "@ + y));
    if d1.len() < d2.len() {
        assert(s1[d1.len() as int] == ' ');
        assert(s2[d1.len() as int] == d2[d1.len() as int]);
        assert(crate::text::is_digit(d2[d1.len() as int]));
    } else if d2.len() < d1.len() {
        assert(s2[d2.len() as int] == ' ');
        assert(s1[d2.len() as int] == d1[d2.len() as int]);
        assert(crate::text::is_digit(d1[d2.len() as int]));
    } else {
        assert(d1 =~= s1.take(d1.len() as int));
        assert(d2 =~= s2.take(d2.len() as int));
    }
}

proof fn lemma_render_injective(t: Seq<char>, n1: u64, n2: u64)
    requires
        crate::text::contains(t, "{index}"@),
        replace_all(t, "{index}"@, index_prefix(Some(n1))) == replace_all(
            t,
            "{index}"@,
            index_prefix(Some(n2)),
        ),
    ensures
        n1 == n2,
    decreases t.len(),
{
    reveal_strlit("{index}");
    let pat = "{index}"@;
    let k = choose|i: int| crate::text::occurs_at(t, pat, i);
    let r1 = index_prefix(Some(n1));
    let r2 = index_prefix(Some(n2));
    if t.take(7) == pat {
        lemma_index_prefix_free(
            n1,
            n2,
            replace_all(t.skip(7), pat, r1),
            replace_all(t.skip(7), pat, r2),
        );
    } else {
        assert(k != 0) by {
            if k == 0 {
                assert(t.subrange(0, 7) =~= t.take(7));
            }
        }
        let rest = t.drop_first();
        assert(rest.subrange(k - 1, k - 1 + 7) =~= t.subrange(k, k + 7));
        assert(crate::text::occurs_at(rest, pat, k - 1));
        let a = replace_all(rest, pat, r1);
        let b = replace_all(rest, pat, r2);
        assert(a =~= (seq![t[0]] + a).drop_first());
        assert(b =~= (seq![t[0]] + b).drop_first());
        lemma_render_injective(rest, n1, n2);
    }
}

/// Rendering a template only puts digits, spaces and dashes where
/// `{index}` stood, so the rendered name starts with a separator or a
/// drive exactly when the template does.
proof fn lemma_render_head(t: Seq<char>, n: u64)
    requires
        t.len() >= 7,
    ensures
        spec_render_filename_template(t, Some(n)).len() >= 2,
        (spec_render_filename_template(t, Some(n))[0] == '/') == (t[0] == '/'),
        (spec_render_filename_template(t, Some(n))[0] == '\\') == (t[0] == '\\'),
        has_drive(spec_render_filename_template(t, Some(n))) == has_drive(t),
{
    reveal_strlit("{index}");
    reveal_strlit(" - ");
    crate::text::lemma_dec_digits(n as nat);
    let pat = "{index}"@;
    let p = index_prefix(Some(n));
    let r = spec_render_filename_template(t, Some(n));
    let d = dec(n as nat);
    assert(p == d + " - "@);
    assert(p.len() >= 4);
    assert(crate::text::is_digit(d[0]));
    assert(forall|k: int| 0 <= k < p.len() ==> (#[trigger] p[k] != '/' && p[k] != '\\' && p[k] != ':'))
        by {
        assert forall|k: int| 0 <= k < p.len() implies (#[trigger] p[k] != '/' && p[k] != '\\' && p[k]
            != ':') by {
            if k < d.len() {
                assert(crate::text::all_digits(d));
                assert(crate::text::is_digit(d[k]));
            } else {
                assert(p[k] == " - "@[k - d.len()]);
            }
        }
    }
    if t.take(7) == pat {
        assert(r == p + replace_all(t.skip(7), pat, p));
        assert(t[0] == t.take(7)[0]);
        assert(t[1] == t.take(7)[1]);
        assert(r[0] == p[0]);
        assert(r[1] == p[1]);
    } else {
        let t1 = t.drop_first();
        let r1 = replace_all(t1, pat, p);
        assert(r == seq![t[0]] + r1);
        assert(r[0] == t[0]);
        if t1.len() >= 7 && t1.take(7) == pat {
            assert(r1 == p + replace_all(t1.skip(7), pat, p));
            assert(t[1] == t1[0]);
            assert(t1[0] == t1.take(7)[0]);
            assert(r[1] == r1[0]);
            assert(r1[0] == p[0]);
        } else if t1.len() < 7 {
            assert(r1 == t1);
            assert(r[1] == t[1]);
        } else {
            assert(r1 == seq![t1[0]] + replace_all(t1.drop_first(), pat, p));
            assert(r[1] == t[1]);
        }
    }
}

/// Joining is one-to-one in names that both start with a separator, both
/// with a drive, or both with neither.
proof fn lemma_join_injective(w: bool, d: Seq<char>, a: Seq<char>, b: Seq<char>)
    requires
        a.len() > 0,
        b.len() > 0,
        (a[0] == '/') == (b[0] == '/'),
        (a[0] == '\\') == (b[0] == '\\'),
        has_drive(a) == has_drive(b),
        path_join_on(w, d, a) == path_join_on(w, d, b),
    ensures
        a == b,
{
    let j = path_join_on(w, d, a);
    if !w {
        if a[0] == '/' {
        } else if d.len() == 0 || d.last() == '/' {
            assert(a =~= j.skip(d.len() as int));
            assert(b =~= j.skip(d.len() as int));
        } else {
            reveal_strlit("/");
            assert(a =~= j.skip(d.len() as int + 1));
            assert(b =~= j.skip(d.len() as int + 1));
        }
    } else {
        if has_drive(a) {
        } else if is_win_sep(a[0]) {
            if has_drive(d) {
                assert(a =~= j.skip(2));
                assert(b =~= j.skip(2));
            }
        } else if d.len() == 0 || is_win_sep(d.last()) || (d.len() == 2 && has_drive(d)) {
            assert(a =~= j.skip(d.len() as int));
            assert(b =~= j.skip(d.len() as int));
        } else {
            reveal_strlit("\\");
            assert(a =~= j.skip(d.len() as int + 1));
            assert(b =~= j.skip(d.len() as int + 1));
        }
    }
}

/// Two entries of one playlist at different positions never share an
/// output path, on either platform, even when they are the same video under
/// the same title -- as long as the filename template uses `{index}` (the
/// default does).
pub proof fn lemma_distinct_positions_distinct_outputs(
    v1: VideoModel,
    v2: VideoModel,
    s: SettingsModel,
    windows: bool,
)
    requires
        crate::text::contains(s.filename_template, "{index}"@),
        v1.playlist_index is Some,
        v2.playlist_index is Some,
        v1.playlist_index != v2.playlist_index,
    ensures
        args_output(v1, s, windows)[1] != args_output(v2, s, windows)[1],
{
    reveal_strlit("{index}");
    let t = s.filename_template;
    let n1 = v1.playlist_index->0;
    let n2 = v2.playlist_index->0;
    let a = spec_render_filename_template(t, Some(n1));
    let b = spec_render_filename_template(t, Some(n2));
    if a == b {
        lemma_render_injective(t, n1, n2);
    }
    assert(t.len() >= 7) by {
        let i = choose|i: int| crate::text::occurs_at(t, "{index}"@, i);
        assert(crate::text::occurs_at(t, "{index}"@, i));
    }
    lemma_render_head(t, n1);
    lemma_render_head(t, n2);
    if path_join_on(windows, s.output_dir, a) == path_join_on(windows, s.output_dir, b) {
        lemma_join_injective(windows, s.output_dir, a, b);
    }
}

/// Substitutes our own `{index}` token in a filename template with a
/// `"N - "` prefix derived from `Video::playlist_index`.
///
/// yt-dlp's own `%(playlist_index)s` field is *not* usable here: we invoke
/// yt-dlp once per video, by that video's direct URL, so it never has
/// playlist context and the field is always empty. When a playlist repeats
/// the same video under more than one entry, every repeat would render to
/// the identical filename, and only one file would be written. Since we
/// know each entry's true position from the fetch step, we render the
/// prefix ourselves.
pub fn render_filename_template(template: &str, video: &Video) -> (r: String)
    ensures
        r@ == spec_render_filename_template(template@, video.playlist_index),
{
    let prefix = match video.playlist_index {
        Some(index) => concat(u64_to_string(index).as_str(), " - "),
        None => String::new(),
    };
    let t = chars_of(template);
    let pat = chars_of("{index}");
    let p = chars_of(prefix.as_str());
    proof {
        reveal_strlit("{index}");
    }
    let r = replace_chars(t.as_slice(), pat.as_slice(), p.as_slice());
    string_of(r.as_slice())
}

/// yt-dlp's format selector: the best video no taller than the cap plus the
/// best audio (falling back to the best single file under the cap, then the
/// best overall), or simply the best when there is no cap.
pub open spec fn format_selector(cap: Option<u32>) -> Seq<char> {
    match cap {
        Some(h) => "bestvideo[height<="@ + dec(h as nat) + "]+bestaudio/best[height<="@ + dec(
            h as nat,
        ) + "]/best"@,
        None => "bestvideo+bestaudio/best"@,
    }
}

pub open spec fn when(c: bool, s: Seq<Seq<char>>) -> Seq<Seq<char>> {
    if c {
        s
    } else {
        Seq::empty()
    }
}

/// `-o <output_dir>/<rendered template>`, joined as on Windows (`windows`)
/// or on Unix.
pub open spec fn args_output(v: VideoModel, s: SettingsModel, windows: bool) -> Seq<Seq<char>> {
    seq![
        "-o"@,
        path_join_on(
            windows,
            s.output_dir,
            spec_render_filename_template(s.filename_template, v.playlist_index),
        ),
    ]
}

/// The JS runtime and ffmpeg locations, when known.
pub open spec fn args_tools(ffmpeg: Option<Seq<char>>, js_arg: Option<Seq<char>>) -> Seq<Seq<char>> {
    (match js_arg {
        Some(a) => seq!["--js-runtimes"@, a],
        None => Seq::empty(),
    }) + (match ffmpeg {
        Some(f) => seq!["--ffmpeg-location"@, f],
        None => Seq::empty(),
    })
}

/// Audio extraction, or the format selection for video.
pub open spec fn args_media(s: SettingsModel) -> Seq<Seq<char>> {
    match s.media_mode {
        MediaMode::AudioOnly => seq!["-x"@] + (match s.audio_format.spec_ytdlp_name() {
            Some(f) => seq!["--audio-format"@, f],
            None => Seq::empty(),
        }) + seq!["--audio-quality"@, "0"@],
        MediaMode::VideoAudio => seq![
            "-f"@,
            format_selector(s.video_quality.spec_height_cap()),
            "--merge-output-format"@,
            s.video_container.spec_ytdlp_name(),
        ] + when(s.embed_chapters, seq!["--embed-chapters"@]),
    }
}

/// Embedding and subtitle options.
pub open spec fn args_embedding(s: SettingsModel) -> Seq<Seq<char>> {
    when(s.embed_thumbnail, seq!["--embed-thumbnail"@]) + when(
        s.embed_metadata,
        seq!["--embed-metadata"@],
    ) + when(s.write_subtitles, seq!["--write-subs"@, "--sub-langs"@, s.subtitle_langs]) + when(
        s.write_auto_subs,
        seq!["--write-auto-subs"@],
    ) + when(s.embed_subtitles, seq!["--embed-subs"@])
}

/// Archive, network and SponsorBlock options.
pub open spec fn args_network(s: SettingsModel, archive: Seq<char>) -> Seq<Seq<char>> {
    when(s.use_download_archive, seq!["--download-archive"@, archive]) + when(
        s.rate_limit.len() > 0,
        seq!["--limit-rate"@, s.rate_limit],
    ) + seq!["--retries"@, dec(s.retries as nat)] + when(s.proxy.len() > 0, seq!["--proxy"@, s.proxy])
        + when(s.cookies_file.len() > 0, seq!["--cookies"@, s.cookies_file]) + when(
        s.sponsorblock_remove,
        seq!["--sponsorblock-remove"@, "all"@],
    )
}

/// Embedding, subtitles, archive, network and SponsorBlock options.
pub open spec fn args_options(s: SettingsModel, archive: Seq<char>) -> Seq<Seq<char>> {
    args_embedding(s) + args_network(s, archive)
}

/// Quiet, machine-readable output with our progress templates, then the URL.
pub open spec fn args_tail(v: VideoModel) -> Seq<Seq<char>> {
    seq![
        "--newline"@,
        "--no-color"@,
        "--no-warnings"@,
        "--progress-template"@,
        "download:"@ + spec_dl_template(),
        "--progress-template"@,
        "postprocess:"@ + spec_pp_template(),
        v.url,
    ]
}

/// The full `yt-dlp` argument list for one video, given where the download
/// archive lives.
pub open spec fn spec_download_args(
    v: VideoModel,
    s: SettingsModel,
    ffmpeg: Option<Seq<char>>,
    js_arg: Option<Seq<char>>,
    archive: Seq<char>,
    windows: bool,
) -> Seq<Seq<char>> {
    args_output(v, s, windows) + args_tools(ffmpeg, js_arg) + args_media(s) + args_options(s, archive)
        + words(s.extra_args) + args_tail(v)
}

/// A settings row that does not apply to the chosen media mode (see
/// `SettingsField::relevant_for`) never changes the yt-dlp arguments:
/// toggling it, cycling it either way, or committing text to it leaves the
/// argument list as it was.
pub proof fn lemma_irrelevant_settings_leave_args(
    g: SettingsField,
    v: VideoModel,
    s: SettingsModel,
    ffmpeg: Option<Seq<char>>,
    js_arg: Option<Seq<char>>,
    archive: Seq<char>,
    windows: bool,
    dir: i32,
    text: Seq<char>,
)
    requires
        !g.spec_relevant_for(s.media_mode),
    ensures
        spec_download_args(v, g.spec_toggle(s), ffmpeg, js_arg, archive, windows) == spec_download_args(
            v,
            s,
            ffmpeg,
            js_arg,
            archive,
            windows,
        ),
        spec_download_args(v, g.spec_cycle(s, dir), ffmpeg, js_arg, archive, windows)
            == spec_download_args(v, s, ffmpeg, js_arg, archive, windows),
        spec_download_args(v, g.spec_set_text(s, text), ffmpeg, js_arg, archive, windows)
            == spec_download_args(v, s, ffmpeg, js_arg, archive, windows),
{
    crate::settings_fields::lemma_actions_respect_kind(g, s, dir, text);
    let t = g.spec_toggle(s);
    let c = g.spec_cycle(s, dir);
    assert(args_media(t) == args_media(s));
    assert(args_media(c) == args_media(s));
    assert(args_options(t, archive) == args_options(s, archive));
    assert(args_options(c, archive) == args_options(s, archive));
}

/// With a proxy set, the download arguments hand it to yt-dlp: `--proxy`
/// and the proxy, right after `--retries` and the retry count, whatever
/// the other settings, tools, archive and platform.
pub proof fn lemma_download_args_pass_proxy(
    v: VideoModel,
    s: SettingsModel,
    ffmpeg: Option<Seq<char>>,
    js_arg: Option<Seq<char>>,
    archive: Seq<char>,
    windows: bool,
)
    requires
        s.proxy.len() > 0,
    ensures
        ({
            let a = spec_download_args(v, s, ffmpeg, js_arg, archive, windows);
            exists|i: int|
                2 <= i && i + 1 < a.len() && #[trigger] a[i] == "--proxy"@ && a[i + 1] == s.proxy
                    && a[i - 2] == "--retries"@ && a[i - 1] == dec(s.retries as nat)
        }),
{
    let r = seq!["--retries"@, dec(s.retries as nat)];
    let wp = seq!["--proxy"@, s.proxy];
    assert(when(s.proxy.len() > 0, wp) == wp);
    lemma_pair_after_pair(
        args_output(v, s, windows),
        args_tools(ffmpeg, js_arg),
        args_media(s),
        args_embedding(s),
        when(s.use_download_archive, seq!["--download-archive"@, archive]),
        when(s.rate_limit.len() > 0, seq!["--limit-rate"@, s.rate_limit]),
        r,
        wp,
        when(s.cookies_file.len() > 0, seq!["--cookies"@, s.cookies_file]),
        when(s.sponsorblock_remove, seq!["--sponsorblock-remove"@, "all"@]),
        words(s.extra_args),
        args_tail(v),
    );
    let a = spec_download_args(v, s, ffmpeg, js_arg, archive, windows);
    let b = args_output(v, s, windows) + args_tools(ffmpeg, js_arg) + args_media(s) + (args_embedding(s)
        + (when(s.use_download_archive, seq!["--download-archive"@, archive]) + when(
        s.rate_limit.len() > 0,
        seq!["--limit-rate"@, s.rate_limit],
    ) + r + wp + when(s.cookies_file.len() > 0, seq!["--cookies"@, s.cookies_file]) + when(
        s.sponsorblock_remove,
        seq!["--sponsorblock-remove"@, "all"@],
    ))) + words(s.extra_args) + args_tail(v);
    assert(a == b);
    let i = choose|i: int|
        2 <= i && i + 1 < b.len() && #[trigger] b[i] == wp[0] && b[i + 1] == wp[1] && b[i - 2] == r[0]
            && b[i - 1] == r[1];
    assert(a[i] == "--proxy"@);
}

/// `x` immediately followed by `y` somewhere in `a`.
pub open spec fn has_pair(a: Seq<Seq<char>>, x: Seq<char>, y: Seq<char>) -> bool {
    exists|i: int| 0 <= i && i + 1 < a.len() && #[trigger] a[i] == x && a[i + 1] == y
}

proof fn lemma_pair_alone(pair: Seq<Seq<char>>)
    requires
        pair.len() == 2,
    ensures
        has_pair(pair, pair[0], pair[1]),
{
    assert(pair[0] == pair[0] && pair[1] == pair[1]);
}

proof fn lemma_pair_extend(p: Seq<Seq<char>>, q: Seq<Seq<char>>, x: Seq<char>, y: Seq<char>)
    ensures
        has_pair(p, x, y) ==> has_pair(p + q, x, y),
        has_pair(q, x, y) ==> has_pair(p + q, x, y),
{
    if has_pair(p, x, y) {
        let i = choose|i: int| 0 <= i && i + 1 < p.len() && #[trigger] p[i] == x && p[i + 1] == y;
        assert((p + q)[i] == x && (p + q)[i + 1] == y);
    }
    if has_pair(q, x, y) {
        let i = choose|i: int| 0 <= i && i + 1 < q.len() && #[trigger] q[i] == x && q[i + 1] == y;
        let k: int = p.len() as int + i;
        assert((p + q)[k] == x && (p + q)[k + 1] == y);
    }
}

/// Each two-word network option in the download arguments' layout appears
/// there as a pair.
proof fn lemma_network_pairs(
    o: Seq<Seq<char>>,
    t: Seq<Seq<char>>,
    m: Seq<Seq<char>>,
    e: Seq<Seq<char>>,
    wa: Seq<Seq<char>>,
    wr: Seq<Seq<char>>,
    r: Seq<Seq<char>>,
    wp: Seq<Seq<char>>,
    wc: Seq<Seq<char>>,
    ws: Seq<Seq<char>>,
    w: Seq<Seq<char>>,
    tl: Seq<Seq<char>>,
    x: Seq<char>,
    y: Seq<char>,
)
    requires
        has_pair(wa, x, y) || has_pair(wr, x, y) || has_pair(r, x, y) || has_pair(wc, x, y)
            || has_pair(ws, x, y),
    ensures
        has_pair(o + t + m + (e + (wa + wr + r + wp + wc + ws)) + w + tl, x, y),
{
    lemma_pair_extend(wa, wr, x, y);
    lemma_pair_extend(wa + wr, r, x, y);
    lemma_pair_extend(wa + wr + r, wp, x, y);
    lemma_pair_extend(wa + wr + r + wp, wc, x, y);
    lemma_pair_extend(wa + wr + r + wp + wc, ws, x, y);
    let net = wa + wr + r + wp + wc + ws;
    lemma_pair_extend(e, net, x, y);
    lemma_pair_extend(o + t + m, e + net, x, y);
    lemma_pair_extend(o + t + m + (e + net), w, x, y);
    lemma_pair_extend(o + t + m + (e + net) + w, tl, x, y);
}

/// The download arguments carry the network settings to yt-dlp, whatever
/// the rest: `--retries` and the retry count always; with the archive on,
/// `--download-archive` and the archive's path; with a rate limit,
/// `--limit-rate` and the limit; with a cookies file, `--cookies` and the
/// file; with SponsorBlock removal on, `--sponsorblock-remove all`.
pub proof fn lemma_download_args_pass_network_options(
    v: VideoModel,
    s: SettingsModel,
    ffmpeg: Option<Seq<char>>,
    js_arg: Option<Seq<char>>,
    archive: Seq<char>,
    windows: bool,
)
    ensures
        ({
            let a = spec_download_args(v, s, ffmpeg, js_arg, archive, windows);
            &&& has_pair(a, "--retries"@, dec(s.retries as nat))
            &&& s.use_download_archive ==> has_pair(a, "--download-archive"@, archive)
            &&& s.rate_limit.len() > 0 ==> has_pair(a, "--limit-rate"@, s.rate_limit)
            &&& s.cookies_file.len() > 0 ==> has_pair(a, "--cookies"@, s.cookies_file)
            &&& s.sponsorblock_remove ==> has_pair(a, "--sponsorblock-remove"@, "all"@)
        }),
{
    let wa = when(s.use_download_archive, seq!["--download-archive"@, archive]);
    let wr = when(s.rate_limit.len() > 0, seq!["--limit-rate"@, s.rate_limit]);
    let r = seq!["--retries"@, dec(s.retries as nat)];
    let wp = when(s.proxy.len() > 0, seq!["--proxy"@, s.proxy]);
    let wc = when(s.cookies_file.len() > 0, seq!["--cookies"@, s.cookies_file]);
    let ws = when(s.sponsorblock_remove, seq!["--sponsorblock-remove"@, "all"@]);
    let a = spec_download_args(v, s, ffmpeg, js_arg, archive, windows);
    let b = args_output(v, s, windows) + args_tools(ffmpeg, js_arg) + args_media(s) + (args_embedding(s)
        + (wa + wr + r + wp + wc + ws)) + words(s.extra_args) + args_tail(v);
    assert(a == b);
    let o = args_output(v, s, windows);
    let t = args_tools(ffmpeg, js_arg);
    let m = args_media(s);
    let e = args_embedding(s);
    let w = words(s.extra_args);
    let tl = args_tail(v);
    lemma_pair_alone(r);
    lemma_network_pairs(o, t, m, e, wa, wr, r, wp, wc, ws, w, tl, r[0], r[1]);
    if s.use_download_archive {
        lemma_pair_alone(wa);
        lemma_network_pairs(o, t, m, e, wa, wr, r, wp, wc, ws, w, tl, wa[0], wa[1]);
    }
    if s.rate_limit.len() > 0 {
        lemma_pair_alone(wr);
        lemma_network_pairs(o, t, m, e, wa, wr, r, wp, wc, ws, w, tl, wr[0], wr[1]);
    }
    if s.cookies_file.len() > 0 {
        lemma_pair_alone(wc);
        lemma_network_pairs(o, t, m, e, wa, wr, r, wp, wc, ws, w, tl, wc[0], wc[1]);
    }
    if s.sponsorblock_remove {
        lemma_pair_alone(ws);
        lemma_network_pairs(o, t, m, e, wa, wr, r, wp, wc, ws, w, tl, ws[0], ws[1]);
    }
}

/// Where a pair lands in the download arguments' layout: right after the
/// pair before it.
proof fn lemma_pair_after_pair(
    o: Seq<Seq<char>>,
    t: Seq<Seq<char>>,
    m: Seq<Seq<char>>,
    e: Seq<Seq<char>>,
    wa: Seq<Seq<char>>,
    wr: Seq<Seq<char>>,
    r: Seq<Seq<char>>,
    wp: Seq<Seq<char>>,
    wc: Seq<Seq<char>>,
    ws: Seq<Seq<char>>,
    w: Seq<Seq<char>>,
    tl: Seq<Seq<char>>,
)
    requires
        r.len() == 2,
        wp.len() == 2,
    ensures
        ({
            let a = o + t + m + (e + (wa + wr + r + wp + wc + ws)) + w + tl;
            exists|i: int|
                2 <= i && i + 1 < a.len() && #[trigger] a[i] == wp[0] && a[i + 1] == wp[1] && a[i
                    - 2] == r[0] && a[i - 1] == r[1]
        }),
{
    let a = o + t + m + (e + (wa + wr + r + wp + wc + ws)) + w + tl;
    let p = o + t + m + e + wa + wr;
    let q = wc + ws + w + tl;
    assert(a =~= p + r + wp + q);
    let i: int = p.len() as int + 2;
    assert(a[i] == wp[0] && a[i + 1] == wp[1] && a[i - 2] == r[0] && a[i - 1] == r[1]);
}

/// The arguments for resolving a URL ask yt-dlp for one flat JSON document
/// and nothing else: `--flat-playlist`, `--dump-single-json`,
/// `--no-warnings` and `--ignore-no-formats-error` first, the URL last, and
/// with a proxy set, `--proxy` and the proxy right after the fixed four.
pub proof fn lemma_fetch_args_dump_one_document(url: Seq<char>, s: SettingsModel, js_arg: Option<Seq<char>>)
    ensures
        ({
            let a = spec_fetch_args(url, s, js_arg);
            &&& a.len() >= 5
            &&& a[0] == "--flat-playlist"@
            &&& a[1] == "--dump-single-json"@
            &&& a[2] == "--no-warnings"@
            &&& a[3] == "--ignore-no-formats-error"@
            &&& a.last() == url
            &&& s.proxy.len() > 0 ==> a[4] == "--proxy"@ && a[5] == s.proxy
        }),
{
    let a = spec_fetch_args(url, s, js_arg);
    let head = seq!["--flat-playlist"@, "--dump-single-json"@, "--no-warnings"@, "--ignore-no-formats-error"@];
    let rest = when(s.proxy.len() > 0, seq!["--proxy"@, s.proxy]) + when(
        s.cookies_file.len() > 0,
        seq!["--cookies"@, s.cookies_file],
    ) + (match js_arg {
        Some(x) => seq!["--js-runtimes"@, x],
        None => Seq::empty(),
    });
    assert(a =~= head + rest + seq![url]);
    assert(a[0] == head[0] && a[1] == head[1] && a[2] == head[2] && a[3] == head[3]);
    if s.proxy.len() > 0 {
        assert(a[4] == rest[0] && a[5] == rest[1]);
    }
}

/// Fields joined with tabs, as the progress templates print them.
pub open spec fn tab_joined(fields: Seq<Seq<char>>) -> Seq<char>
    decreases fields.len(),
{
    if fields.len() == 0 {
        Seq::empty()
    } else if fields.len() == 1 {
        fields[0]
    } else {
        tab_joined(fields.drop_last()) + seq!['\t'] + fields.last()
    }
}

proof fn lemma_split_after_sep(a: Seq<char>, b: Seq<char>, sep: char)
    ensures
        split_on(a + seq![sep] + b, sep) == split_on(a, sep) + split_on(b, sep),
    decreases b.len(),
{
    let s = a + seq![sep] + b;
    if b.len() == 0 {
        assert(s.drop_last() =~= a);
        assert(split_on(b, sep) =~= seq![Seq::<char>::empty()]);
        assert(split_on(s, sep) =~= split_on(a, sep) + split_on(b, sep));
    } else {
        lemma_split_after_sep(a, b.drop_last(), sep);
        assert(s.drop_last() =~= a + seq![sep] + b.drop_last());
        crate::text::lemma_split_on_nonempty(b.drop_last(), sep);
        crate::text::lemma_split_on_nonempty(a, sep);
        assert(split_on(s, sep) =~= split_on(a, sep) + split_on(b, sep));
    }
}

proof fn lemma_split_without_sep(a: Seq<char>, sep: char)
    requires
        forall|j: int| 0 <= j < a.len() ==> a[j] != sep,
    ensures
        split_on(a, sep) == seq![a],
    decreases a.len(),
{
    if a.len() > 0 {
        assert forall|j: int| 0 <= j < a.drop_last().len() implies a.drop_last()[j] != sep by {
            assert(a.drop_last()[j] == a[j]);
        }
        lemma_split_without_sep(a.drop_last(), sep);
        assert(a.drop_last().push(a.last()) =~= a);
        assert(split_on(a, sep) =~= seq![a]);
    } else {
        assert(a =~= Seq::<char>::empty());
    }
}

proof fn lemma_split_tab_joined(fields: Seq<Seq<char>>)
    requires
        fields.len() >= 1,
        forall|k: int, j: int| 0 <= k < fields.len() && 0 <= j < fields[k].len() ==> #[trigger] fields[k][j]
            != '\t',
    ensures
        split_on(tab_joined(fields), '\t') == fields,
    decreases fields.len(),
{
    if fields.len() == 1 {
        lemma_split_without_sep(fields[0], '\t');
        assert(seq![fields[0]] =~= fields);
    } else {
        let init = fields.drop_last();
        assert forall|k: int, j: int| 0 <= k < init.len() && 0 <= j < init[k].len() implies #[trigger] init[k][j]
            != '\t' by {
            assert(init[k] == fields[k]);
        }
        lemma_split_tab_joined(init);
        assert forall|j: int| 0 <= j < fields.last().len() implies fields.last()[j] != '\t' by {
            assert(fields[fields.len() - 1][j] != '\t');
        }
        lemma_split_without_sep(fields.last(), '\t');
        lemma_split_after_sep(tab_joined(init), fields.last(), '\t');
        assert(init + seq![fields.last()] =~= fields);
    }
}

/// A download progress line carries its six fields in the template's
/// order -- status, downloaded, total, estimated total, speed, eta -- and
/// each is read from its own place: the ETA only from the sixth field, the
/// speed only from the fifth, the byte counts from the second and the third
/// (the fourth standing in for a missing total).
pub proof fn lemma_progress_fields_in_template_order(f: Seq<Seq<char>>)
    requires
        f.len() == 6,
        forall|k: int, j: int| 0 <= k < 6 && 0 <= j < f[k].len() ==> #[trigger] f[k][j] != '\t',
    ensures
        f[0] == "finished"@ ==> spec_parse_progress_line(DL_MARKER@ + tab_joined(f)) is Finished,
        f[0] != "finished"@ ==> (spec_parse_progress_line(DL_MARKER@ + tab_joined(f)) matches ProgressLineModel::Downloading(
            m,
        ) && {
            &&& forall|e: u64| spec_parse_bytes(f[5]) == Some(e) ==> m.eta == Some(
                spec_format_duration(e as nat),
            )
            &&& spec_parse_bytes(f[5]) is None ==> m.eta is None
            &&& forall|b: u64| spec_parse_bytes(f[4]) == Some(b) ==> m.speed == Some(
                spec_human_bytes(b as nat) + "/s"@,
            )
            &&& spec_parse_bytes(f[4]) is None ==> m.speed is None
            &&& m.downloaded_bytes == spec_parse_bytes(f[1])
            &&& spec_parse_bytes(f[2]) is Some ==> m.total_bytes == spec_parse_bytes(f[2])
            &&& spec_parse_bytes(f[2]) is None ==> m.total_bytes == spec_parse_bytes(f[3])
            &&& forall|d: u64, t: u64|
                m.downloaded_bytes == Some(d) && m.total_bytes == Some(t) && t > 0
                    ==> m.percent_tenths == round_tenths(d as nat * 100, t as nat)
            &&& (m.downloaded_bytes is None || m.total_bytes is None || m.total_bytes == Some(0u64))
                ==> m.percent_tenths == 0
        }),
{
    let line = DL_MARKER@ + tab_joined(f);
    assert(line.take(DL_MARKER@.len() as int) =~= DL_MARKER@);
    assert(line.skip(DL_MARKER@.len() as int) =~= tab_joined(f));
    lemma_split_tab_joined(f);
    assert(progress_fields(line) == f);
}

fn push_str(args: &mut Vec<String>, s: &str)
    ensures
        views(final(args)@) == views(old(args)@).push(s@),
{
    let ghost before = views(args@);
    args.push(String::from_str(s));
    assert(views(args@) =~= before.push(s@));
}

fn push_string(args: &mut Vec<String>, s: String)
    ensures
        views(final(args)@) == views(old(args)@).push(s@),
{
    let ghost before = views(args@);
    let ghost sv = s@;
    args.push(s);
    assert(views(args@) =~= before.push(sv));
}

fn push_all(args: &mut Vec<String>, more: Vec<String>)
    ensures
        views(final(args)@) == views(old(args)@) + views(more@),
{
    let ghost before = views(args@);
    let mut i: usize = 0;
    while i < more.len()
        invariant
            i <= more@.len(),
            views(args@) == before + views(more@).take(i as int),
        decreases more@.len() - i,
    {
        push_string(args, more[i].clone());
        i = i + 1;
        assert(views(args@) =~= before + views(more@).take(i as int));
    }
    assert(views(more@).take(more@.len() as int) =~= views(more@));
}

fn opt_arg(o: Option<&JsRuntime>) -> (r: Option<String>)
    ensures
        crate::models::opt_view(r) == (match o {
            Some(js) => Some(js.spec_to_arg()),
            None => None,
        }),
{
    match o {
        Some(js) => Some(js.to_arg()),
        None => None,
    }
}

fn push_tools(args: &mut Vec<String>, ffmpeg_path: Option<&str>, js_arg: Option<String>)
    ensures
        views(final(args)@) == views(old(args)@) + args_tools(
            match ffmpeg_path {
                Some(f) => Some(f@),
                None => None,
            },
            crate::models::opt_view(js_arg),
        ),
{
    let ghost before = views(args@);
    match js_arg {
        Some(a) => {
            push_str(args, "--js-runtimes");
            push_string(args, a);
        },
        None => {},
    }
    match ffmpeg_path {
        Some(f) => {
            push_str(args, "--ffmpeg-location");
            push_str(args, f);
        },
        None => {},
    }
    assert(views(args@) =~= before + args_tools(
        match ffmpeg_path {
            Some(f) => Some(f@),
            None => None,
        },
        crate::models::opt_view(js_arg),
    ));
}

fn format_selector_exec(cap: Option<u32>) -> (r: String)
    ensures
        r@ == format_selector(cap),
{
    match cap {
        Some(h) => {
            let hs = u64_to_string(h as u64);
            let a = concat("bestvideo[height<=", hs.as_str());
            let b = concat(a.as_str(), "]+bestaudio/best[height<=");
            let c = concat(b.as_str(), hs.as_str());
            concat(c.as_str(), "]/best")
        },
        None => String::from_str("bestvideo+bestaudio/best"),
    }
}

fn push_media(args: &mut Vec<String>, settings: &Settings)
    ensures
        views(final(args)@) == views(old(args)@) + args_media(settings@),
{
    let ghost before = views(args@);
    match settings.media_mode {
        MediaMode::AudioOnly => {
            push_str(args, "-x");
            match settings.audio_format.ytdlp_name() {
                Some(f) => {
                    push_str(args, "--audio-format");
                    push_str(args, f);
                },
                None => {},
            }
            push_str(args, "--audio-quality");
            push_str(args, "0");
        },
        MediaMode::VideoAudio => {
            push_str(args, "-f");
            push_string(args, format_selector_exec(settings.video_quality.height_cap()));
            push_str(args, "--merge-output-format");
            push_str(args, settings.video_container.ytdlp_name());
            if settings.embed_chapters {
                push_str(args, "--embed-chapters");
            }
        },
    }
    assert(views(args@) =~= before + args_media(settings@));
}

fn push_when(args: &mut Vec<String>, c: bool, a: &str)
    ensures
        views(final(args)@) == views(old(args)@) + when(c, seq![a@]),
{
    let ghost before = views(args@);
    if c {
        push_str(args, a);
    }
    assert(views(args@) =~= before + when(c, seq![a@]));
}

fn push_pair_when(args: &mut Vec<String>, c: bool, a: &str, b: &str)
    ensures
        views(final(args)@) == views(old(args)@) + when(c, seq![a@, b@]),
{
    let ghost before = views(args@);
    if c {
        push_str(args, a);
        push_str(args, b);
    }
    assert(views(args@) =~= before + when(c, seq![a@, b@]));
}

proof fn lemma_append_assoc5<A>(a: Seq<A>, b: Seq<A>, c: Seq<A>, d: Seq<A>, e: Seq<A>, f: Seq<A>)
    ensures
        ((((a + b) + c) + d) + e) + f == a + ((((b + c) + d) + e) + f),
{
    assert(((((a + b) + c) + d) + e) + f =~= a + ((((b + c) + d) + e) + f));
}

fn push_embedding(args: &mut Vec<String>, settings: &Settings)
    ensures
        views(final(args)@) == views(old(args)@) + args_embedding(settings@),
{
    let ghost v0 = views(args@);
    push_when(args, settings.embed_thumbnail, "--embed-thumbnail");
    push_when(args, settings.embed_metadata, "--embed-metadata");
    let ghost before_subs = views(args@);
    if settings.write_subtitles {
        push_str(args, "--write-subs");
        push_str(args, "--sub-langs");
        push_str(args, settings.subtitle_langs.as_str());
    }
    assert(views(args@) =~= before_subs + when(
        settings.write_subtitles,
        seq!["--write-subs"@, "--sub-langs"@, settings.subtitle_langs@],
    ));
    push_when(args, settings.write_auto_subs, "--write-auto-subs");
    push_when(args, settings.embed_subtitles, "--embed-subs");
    proof {
        lemma_append_assoc5(
            v0,
            when(settings.embed_thumbnail, seq!["--embed-thumbnail"@]),
            when(settings.embed_metadata, seq!["--embed-metadata"@]),
            when(
                settings.write_subtitles,
                seq!["--write-subs"@, "--sub-langs"@, settings.subtitle_langs@],
            ),
            when(settings.write_auto_subs, seq!["--write-auto-subs"@]),
            when(settings.embed_subtitles, seq!["--embed-subs"@]),
        );
    }
}

fn push_network(args: &mut Vec<String>, settings: &Settings, archive: &str)
    ensures
        views(final(args)@) == views(old(args)@) + args_network(settings@, archive@),
{
    let ghost v0 = views(args@);
    push_pair_when(args, settings.use_download_archive, "--download-archive", archive);
    push_pair_when(
        args,
        !settings.rate_limit.as_str().is_empty(),
        "--limit-rate",
        settings.rate_limit.as_str(),
    );
    let ghost v2 = views(args@);
    push_str(args, "--retries");
    push_string(args, u64_to_string(settings.retries as u64));
    assert(views(args@) =~= v2 + seq!["--retries"@, dec(settings.retries as nat)]);
    push_pair_when(args, !settings.proxy.as_str().is_empty(), "--proxy", settings.proxy.as_str());
    push_pair_when(
        args,
        !settings.cookies_file.as_str().is_empty(),
        "--cookies",
        settings.cookies_file.as_str(),
    );
    push_pair_when(args, settings.sponsorblock_remove, "--sponsorblock-remove", "all");
    assert(views(args@) =~= v0 + args_network(settings@, archive@));
}

fn push_options(args: &mut Vec<String>, settings: &Settings, archive: &str)
    ensures
        views(final(args)@) == views(old(args)@) + args_options(settings@, archive@),
{
    let ghost v0 = views(args@);
    push_embedding(args, settings);
    let ghost v1 = views(args@);
    push_network(args, settings, archive);
    proof {
        let e = args_embedding(settings@);
        let n = args_network(settings@, archive@);
        assert(v1 == v0 + e);
        assert(views(args@) == v1 + n);
        vstd::seq_lib::lemma_concat_associative(v0, e, n);
    }
}

fn push_tail(args: &mut Vec<String>, video: &Video)
    ensures
        views(final(args)@) == views(old(args)@) + args_tail(video@),
{
    let ghost before = views(args@);
    push_str(args, "--newline");
    push_str(args, "--no-color");
    push_str(args, "--no-warnings");
    push_str(args, "--progress-template");
    push_string(args, concat("download:", dl_template().as_str()));
    push_str(args, "--progress-template");
    push_string(args, concat("postprocess:", pp_template().as_str()));
    push_string(args, video.url.clone());
    assert(views(args@) =~= before + args_tail(video@));
}

/// The full `yt-dlp` argument list for downloading one video, with the
/// download archive at `archive`.
pub fn build_download_args_with_archive(
    video: &Video,
    settings: &Settings,
    ffmpeg_path: Option<&str>,
    js_runtime: Option<&JsRuntime>,
    archive: &str,
    windows: bool,
) -> (r: Vec<String>)
    ensures
        views(r@) == spec_download_args(
            video@,
            settings@,
            match ffmpeg_path {
                Some(f) => Some(f@),
                None => None,
            },
            match js_runtime {
                Some(js) => Some(js.spec_to_arg()),
                None => None,
            },
            archive@,
            windows,
        ),
{
    let mut args: Vec<String> = Vec::new();
    let rendered = render_filename_template(settings.filename_template.as_str(), video);
    push_str(&mut args, "-o");
    push_string(&mut args, join_path_on(windows, settings.output_dir.as_str(), rendered.as_str()));
    assert(views(args@) =~= args_output(video@, settings@, windows));
    push_tools(&mut args, ffmpeg_path, opt_arg(js_runtime));
    push_media(&mut args, settings);
    push_options(&mut args, settings, archive);
    push_all(&mut args, settings.extra_args_list());
    push_tail(&mut args, video);
    args
}

/// Build the full `yt-dlp` argument list for downloading a single video
/// according to the current settings, with paths joined as the platform the
/// library was built for joins them; the download archive is where
/// `Settings::archive_path` puts it.
pub fn build_download_args(
    video: &Video,
    settings: &Settings,
    ffmpeg_path: Option<&str>,
    js_runtime: Option<&JsRuntime>,
) -> (r: Vec<String>)
    ensures
        exists|w: bool, archive: Seq<char>|
            #![trigger is_archive_path_for(archive, settings.output_dir@, w)]
            is_archive_path_for(archive, settings.output_dir@, w) && views(r@) == spec_download_args(
                video@,
                settings@,
                match ffmpeg_path {
                    Some(f) => Some(f@),
                    None => None,
                },
                match js_runtime {
                    Some(js) => Some(js.spec_to_arg()),
                    None => None,
                },
                archive,
                w,
            ),
{
    let windows = target_is_windows();
    let archive = archive_path_in(app_data_dir(), settings.output_dir.as_str(), windows);
    let r = build_download_args_with_archive(
        video,
        settings,
        ffmpeg_path,
        js_runtime,
        archive.as_str(),
        windows,
    );
    assert(is_archive_path_for(archive@, settings.output_dir@, windows));
    r
}

// ---------------------------------------------------------------------------
// Resolving a URL
// ---------------------------------------------------------------------------

/// The arguments that resolve a URL to its metadata: a flat playlist as
/// one JSON document, tolerant of videos without formats; the proxy,
/// cookies and JS runtime when set; then the URL.
pub open spec fn spec_fetch_args(url: Seq<char>, s: SettingsModel, js_arg: Option<Seq<char>>) -> Seq<Seq<char>> {
    seq!["--flat-playlist"@, "--dump-single-json"@, "--no-warnings"@, "--ignore-no-formats-error"@]
        + when(s.proxy.len() > 0, seq!["--proxy"@, s.proxy]) + when(
        s.cookies_file.len() > 0,
        seq!["--cookies"@, s.cookies_file],
    ) + (match js_arg {
        Some(a) => seq!["--js-runtimes"@, a],
        None => Seq::empty(),
    }) + seq![url]
}

/// The `yt-dlp` arguments for resolving `url`; see `spec_fetch_args`.
pub fn fetch_args(url: &str, settings: &Settings, js_runtime: Option<&JsRuntime>) -> (r: Vec<String>)
    ensures
        views(r@) == spec_fetch_args(
            url@,
            settings@,
            match js_runtime {
                Some(js) => Some(js.spec_to_arg()),
                None => None,
            },
        ),
{
    let mut args: Vec<String> = Vec::new();
    push_str(&mut args, "--flat-playlist");
    push_str(&mut args, "--dump-single-json");
    push_str(&mut args, "--no-warnings");
    push_str(&mut args, "--ignore-no-formats-error");
    let ghost a0 = views(args@);
    push_pair_when(&mut args, !settings.proxy.as_str().is_empty(), "--proxy", settings.proxy.as_str());
    let ghost a1 = views(args@);
    push_pair_when(
        &mut args,
        !settings.cookies_file.as_str().is_empty(),
        "--cookies",
        settings.cookies_file.as_str(),
    );
    let ghost a2 = views(args@);
    match js_runtime {
        Some(js) => {
            push_str(&mut args, "--js-runtimes");
            push_string(&mut args, js.to_arg());
        },
        None => {},
    }
    let ghost a3 = views(args@);
    push_str(&mut args, url);
    proof {
        reveal_strlit("--flat-playlist");
        reveal_strlit("--dump-single-json");
        reveal_strlit("--no-warnings");
        reveal_strlit("--ignore-no-formats-error");
        assert(views(args@) =~= spec_fetch_args(
            url@,
            settings@,
            match js_runtime {
                Some(js) => Some(js.spec_to_arg()),
                None => None,
            },
        ));
    }
    args
}

/// Why resolving a URL failed, as the user is told.
pub open spec fn spec_fetch_failure(stderr: Seq<char>) -> Seq<char> {
    "yt-dlp failed to resolve the URL:\n"@ + trim(stderr)
}

/// The message for a `yt-dlp` run that exited unsuccessfully with the given
/// standard error.
pub fn fetch_failure_message(stderr: &str) -> (r: String)
    ensures
        r@ == spec_fetch_failure(stderr@),
{
    let t = trim_str(stderr);
    concat("yt-dlp failed to resolve the URL:\n", t.as_str())
}

/// The playlist resolved from `url`, given `yt-dlp`'s JSON document: as
/// `parse_playlist_json`, remembering the URL it came from.
pub fn playlist_from_output(url: &str, root: &JsonValue, settings: &Settings) -> (r: Result<
    PlaylistInfo,
    PlaylistError,
>)
    ensures
        match r {
            Ok(p) => spec_parse_playlist(*root, settings@) matches Some(m) && p@ == (PlaylistModel {
                source_url: url@,
                ..m
            }),
            Err(e) => e == PlaylistError::NoVideos && spec_parse_playlist(*root, settings@) is None,
        },
{
    match parse_playlist_json(root, settings) {
        Ok(mut p) => {
            p.source_url = String::from_str(url);
            Ok(p)
        },
        Err(e) => Err(e),
    }
}

/// The playlist resolved from `url`, given what `yt-dlp --dump-single-json`
/// printed: output that is not JSON is `NotJson` with serde_json's error
/// text, a document is read as `playlist_from_output` reads it.
pub fn playlist_from_stdout(url: &str, stdout: &[u8], settings: &Settings) -> (r: Result<
    PlaylistInfo,
    PlaylistError,
>)
    ensures
        match json_of(stdout@) {
            Err(e) => r matches Err(PlaylistError::NotJson(m)) && m@ == e,
            Ok(root) => match r {
                Ok(p) => spec_parse_playlist(root, settings@) matches Some(m) && p@ == (PlaylistModel {
                    source_url: url@,
                    ..m
                }),
                Err(err) => err == PlaylistError::NoVideos && spec_parse_playlist(root, settings@) is None,
            },
        },
{
    match parse_json(stdout) {
        Ok(root) => playlist_from_output(url, &root, settings),
        Err(e) => Err(PlaylistError::NotJson(e)),
    }
}

/// Where to look for the bundled yt-dlp: the interpreter and the source
/// directory each from its override (environment variable) if set, else
/// from next to the executable (when its directory is known). `None` when
/// either cannot be placed; whether the files exist is checked outside.
pub fn ytdlp_candidate(
    python_override: Option<String>,
    src_override: Option<String>,
    exe_dir: Option<&str>,
    windows: bool,
) -> (r: Option<YtDlp>)
    ensures
        match r {
            Some(y) => {
                &&& y.python_path@ == match python_override {
                    Some(p) => p@,
                    None => spec_bundled_python_path(exe_dir->0@, windows),
                }
                &&& y.src_dir@ == match src_override {
                    Some(d) => d@,
                    None => path_join_on(windows, exe_dir->0@, "yt_dlp_src"@),
                }
            },
            None => exe_dir is None && (python_override is None || src_override is None),
        },
        exe_dir is Some || (python_override is Some && src_override is Some) ==> r is Some,
{
    let python_path = match python_override {
        Some(p) => p,
        None => match exe_dir {
            Some(d) => bundled_python_path(d, windows),
            None => return None,
        },
    };
    let src_dir = match src_override {
        Some(s) => s,
        None => match exe_dir {
            Some(d) => bundled_ytdlp_src_dir(d, windows),
            None => return None,
        },
    };
    Some(YtDlp { python_path, src_dir })
}

} // verus!
