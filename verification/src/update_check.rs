//! Deciding whether a newer release exists and what to download for it.
//!
//! Fetching the release description from GitHub, writing the installer to
//! disk and launching it happen outside the library. What is decided here:
//! reading the release description, comparing plain `MAJOR.MINOR.PATCH`
//! versions, picking this platform's installer asset, and the arguments the
//! downloaded installer is launched with.

use vstd::prelude::*;

use crate::json::{JsonValue, json_as_array, json_as_str, json_get, json_of, parse_json};
use crate::paths::{join_path_on, path_join_on, target_is_windows};
use crate::text::{chars_of, concat, parse_uint, parse_unsigned, split_char, split_on, str_eq, views};

verus! {

/// A release newer than the running version, with its installer asset.
#[derive(Debug)]
pub struct UpdateInfo {
    /// e.g. "3.0.1" (the release tag with its leading `v` stripped).
    pub version: String,
    /// Release notes (Markdown), shown as-is.
    pub notes: String,
    pub asset_url: String,
    pub asset_name: String,
}

impl Clone for UpdateInfo {
    fn clone(&self) -> (r: Self)
        ensures
            r == *self,
    {
        UpdateInfo {
            version: self.version.clone(),
            notes: self.notes.clone(),
            asset_url: self.asset_url.clone(),
            asset_name: self.asset_name.clone(),
        }
    }
}

/// One downloadable file of a release.
#[derive(Debug)]
pub struct ReleaseAsset {
    pub name: String,
    pub browser_download_url: String,
}

/// The parts of a GitHub release description the update check reads.
#[derive(Debug)]
pub struct Release {
    pub tag_name: String,
    /// The release notes; empty when the description has none.
    pub body: String,
    pub assets: Vec<ReleaseAsset>,
}

/// Why an update check failed after the release description was read.
#[derive(Debug, PartialEq, Eq)]
pub enum UpdateError {
    /// The release description was not JSON (serde_json's error text is
    /// given).
    NotJson(String),
    /// The release description was not of the expected shape.
    MalformedRelease,
    /// The newer release has no installer for this platform (its name is
    /// given).
    NoAsset(String),
}

impl UpdateError {
    pub open spec fn spec_message(&self) -> Seq<char> {
        match self {
            UpdateError::NotJson(e) => "parsing release info: "@ + e@,
            UpdateError::MalformedRelease => "parsing release info"@,
            UpdateError::NoAsset(name) => "the latest release has no "@ + name@ + " asset"@,
        }
    }

    /// The message shown for this failure.
    pub fn message(&self) -> (r: String)
        ensures
            r@ == self.spec_message(),
    {
        match self {
            UpdateError::NotJson(e) => concat("parsing release info: ", e.as_str()),
            UpdateError::MalformedRelease => String::from_str("parsing release info"),
            UpdateError::NoAsset(name) => {
                let a = concat("the latest release has no ", name.as_str());
                concat(a.as_str(), " asset")
            },
        }
    }
}

// ---------------------------------------------------------------------------
// Reading the release description
// ---------------------------------------------------------------------------

/// An asset object: both fields present and strings.
pub open spec fn spec_asset(v: JsonValue) -> Option<(Seq<char>, Seq<char>)> {
    match (json_get(v, "name"@), json_get(v, "browser_download_url"@)) {
        (Some(n), Some(u)) => match (json_as_str(n), json_as_str(u)) {
            (Some(name), Some(url)) => Some((name, url)),
            _ => None,
        },
        _ => None,
    }
}

pub open spec fn all_assets_ok(vs: Seq<JsonValue>) -> bool {
    forall|i: int| 0 <= i < vs.len() ==> (#[trigger] spec_asset(vs[i])) is Some
}

/// Whether `v` has the shape of a release description: a string
/// `tag_name`, a string `body` if there is one at all, and an array
/// `assets` of objects with string `name` and `browser_download_url`.
pub open spec fn spec_release_ok(v: JsonValue) -> bool {
    &&& v is Object
    &&& json_get(v, "tag_name"@) matches Some(t) && json_as_str(t) is Some
    &&& json_get(v, "body"@) matches Some(b) ==> json_as_str(b) is Some
    &&& json_get(v, "assets"@) matches Some(a) && json_as_array(a) matches Some(vs)
        && all_assets_ok(vs)
}

/// The release notes: the `body` string, or empty when there is none.
pub open spec fn spec_release_body(v: JsonValue) -> Seq<char> {
    match json_get(v, "body"@) {
        Some(b) => json_as_str(b).unwrap(),
        None => Seq::empty(),
    }
}

impl ReleaseAsset {
    pub open spec fn spec_pair(&self) -> (Seq<char>, Seq<char>) {
        (self.name@, self.browser_download_url@)
    }
}

pub open spec fn asset_pairs(assets: Seq<ReleaseAsset>) -> Seq<(Seq<char>, Seq<char>)>
    decreases assets.len(),
{
    if assets.len() == 0 {
        Seq::empty()
    } else {
        asset_pairs(assets.drop_last()).push(assets.last().spec_pair())
    }
}

/// The (name, url) pairs of a list of asset objects.
pub open spec fn json_asset_pairs(vs: Seq<JsonValue>) -> Seq<(Seq<char>, Seq<char>)>
    decreases vs.len(),
{
    if vs.len() == 0 {
        Seq::empty()
    } else {
        json_asset_pairs(vs.drop_last()).push(spec_asset(vs.last()).unwrap())
    }
}

fn str_field<'a>(v: &'a JsonValue, key: &str) -> (r: Option<&'a String>)
    ensures
        match r {
            Some(s) => json_get(*v, key@) matches Some(x) && json_as_str(x) == Some(s@),
            None => !(json_get(*v, key@) matches Some(x) && json_as_str(x) is Some),
        },
{
    match v.get(key) {
        Some(x) => x.as_str(),
        None => None,
    }
}

/// Reads a release description as a derived serde deserializer of it would:
/// `None` when it does not have the shape `spec_release_ok` describes (a
/// missing `body` is fine and reads as empty notes).
pub fn release_from_json(v: &JsonValue) -> (r: Option<Release>)
    ensures
        match r {
            Some(rel) => {
                &&& spec_release_ok(*v)
                &&& json_get(*v, "tag_name"@) matches Some(t) && json_as_str(t) == Some(
                    rel.tag_name@,
                )
                &&& rel.body@ == spec_release_body(*v)
                &&& json_get(*v, "assets"@) matches Some(a) && json_as_array(a) matches Some(vs)
                    && asset_pairs(rel.assets@) == json_asset_pairs(vs)
            },
            None => !spec_release_ok(*v),
        },
{
    if !(v matches JsonValue::Object(_)) {
        return None;
    }
    let tag = match str_field(v, "tag_name") {
        Some(t) => t.clone(),
        None => return None,
    };
    let body = match v.get("body") {
        Some(b) => match b.as_str() {
            Some(s) => s.clone(),
            None => return None,
        },
        None => String::from_str(""),
    };
    proof {
        reveal_strlit("");
    }
    let list = match v.get("assets") {
        Some(a) => match a.as_array() {
            Some(l) => l,
            None => return None,
        },
        None => return None,
    };
    let ghost vs = list@;
    let mut assets: Vec<ReleaseAsset> = Vec::new();
    let mut i: usize = 0;
    while i < list.len()
        invariant
            i <= vs.len(),
            vs == list@,
            json_get(*v, "assets"@) matches Some(a) && json_as_array(a) == Some(vs),
            forall|j: int| 0 <= j < i ==> (#[trigger] spec_asset(vs[j])) is Some,
            asset_pairs(assets@) == json_asset_pairs(vs.take(i as int)),
        decreases vs.len() - i,
    {
        let item = &list[i];
        let name = match str_field(item, "name") {
            Some(n) => n.clone(),
            None => {
                assert(spec_asset(vs[i as int]) is None);
                assert(!all_assets_ok(vs));
                return None;
            },
        };
        let url = match str_field(item, "browser_download_url") {
            Some(u) => u.clone(),
            None => {
                assert(spec_asset(vs[i as int]) is None);
                assert(!all_assets_ok(vs));
                return None;
            },
        };
        assert(item == vs[i as int]);
        assert(spec_asset(vs[i as int]) == Some((name@, url@)));
        let asset = ReleaseAsset { name, browser_download_url: url };
        let ghost old_assets = assets@;
        assert(asset.spec_pair() == spec_asset(vs[i as int]).unwrap());
        assets.push(asset);
        i = i + 1;
        assert(vs.take(i as int).drop_last() =~= vs.take(i - 1));
        assert(assets@.drop_last() =~= old_assets);
    }
    assert(vs.take(vs.len() as int) =~= vs);
    Some(Release { tag_name: tag, body, assets })
}

// ---------------------------------------------------------------------------
// Versions
// ---------------------------------------------------------------------------

/// `p.parse::<u32>().unwrap_or(0)`.
pub open spec fn part_value(p: Seq<char>) -> nat {
    match parse_uint(p, 0xffff_ffff) {
        Some(n) => n,
        None => 0,
    }
}

/// The `i`-th dot-separated part's value, 0 when there are fewer parts.
pub open spec fn nth_part(v: Seq<char>, i: int) -> nat {
    let parts = split_on(v, '.');
    if i < parts.len() {
        part_value(parts[i])
    } else {
        0
    }
}

/// `MAJOR.MINOR.PATCH`: the first three dot-separated parts as `u32`, any
/// part that is missing or not a number counting as 0.
pub open spec fn spec_parse_version(v: Seq<char>) -> (nat, nat, nat) {
    (nth_part(v, 0), nth_part(v, 1), nth_part(v, 2))
}

/// Whether version `a` comes after `b`, comparing major, then minor, then
/// patch.
pub open spec fn version_after(a: (nat, nat, nat), b: (nat, nat, nat)) -> bool {
    a.0 > b.0 || (a.0 == b.0 && (a.1 > b.1 || (a.1 == b.1 && a.2 > b.2)))
}

pub open spec fn spec_is_newer(latest: Seq<char>, current: Seq<char>) -> bool {
    version_after(spec_parse_version(latest), spec_parse_version(current))
}

fn part_at(parts: &Vec<String>, i: usize) -> (r: u32)
    ensures
        r == (if i < parts@.len() { part_value(parts@[i as int]@) } else { 0 }),
{
    if i < parts.len() {
        let cs = chars_of(parts[i].as_str());
        match parse_unsigned(cs.as_slice(), 0xffff_ffff) {
            Some(n) => n as u32,
            None => 0,
        }
    } else {
        0
    }
}

/// Parses `MAJOR.MINOR.PATCH`; missing or non-numeric parts are 0.
pub fn parse_version(v: &str) -> (r: (u32, u32, u32))
    ensures
        (r.0 as nat, r.1 as nat, r.2 as nat) == spec_parse_version(v@),
{
    let cs = chars_of(v);
    let parts = split_char(cs.as_slice(), '.');
    proof {
        assert(views(parts@).len() == parts@.len());
        assert forall|i: int| 0 <= i < parts@.len() implies #[trigger] parts@[i]@ == split_on(
            v@,
            '.',
        )[i] by {
            assert(views(parts@)[i] == parts@[i]@);
        }
    }
    (part_at(&parts, 0), part_at(&parts, 1), part_at(&parts, 2))
}

/// Plain `MAJOR.MINOR.PATCH` comparison: whether `latest` is a later
/// version than `current`.
pub fn is_newer(latest: &str, current: &str) -> (b: bool)
    ensures
        b == spec_is_newer(latest@, current@),
{
    let a = parse_version(latest);
    let c = parse_version(current);
    a.0 > c.0 || (a.0 == c.0 && (a.1 > c.1 || (a.1 == c.1 && a.2 > c.2)))
}

/// Being newer is a strict order on parsed versions: never newer than
/// itself, never both ways, transitive, and of two versions that parse
/// differently exactly one is newer.
pub proof fn lemma_is_newer_strict_order(a: Seq<char>, b: Seq<char>, c: Seq<char>)
    ensures
        !spec_is_newer(a, a),
        spec_is_newer(a, b) ==> !spec_is_newer(b, a),
        spec_is_newer(a, b) && spec_is_newer(b, c) ==> spec_is_newer(a, c),
        spec_parse_version(a) != spec_parse_version(b) ==> (spec_is_newer(a, b) || spec_is_newer(
            b,
            a,
        )),
{
}

// ---------------------------------------------------------------------------
// Picking the asset
// ---------------------------------------------------------------------------

/// The tag with every leading `v` removed (`trim_start_matches('v')`).
pub open spec fn strip_v(s: Seq<char>) -> Seq<char>
    decreases s.len(),
{
    if s.len() > 0 && s[0] == 'v' {
        strip_v(s.drop_first())
    } else {
        s
    }
}

fn strip_v_exec(s: &str) -> (r: String)
    ensures
        r@ == strip_v(s@),
{
    let cs = chars_of(s);
    let mut i: usize = 0;
    assert(cs@.skip(0) =~= cs@);
    while i < cs.len() && cs[i] == 'v'
        invariant
            i <= cs@.len(),
            strip_v(cs@.skip(i as int)) == strip_v(cs@),
        decreases cs@.len() - i,
    {
        assert(cs@.skip(i as int).drop_first() =~= cs@.skip(i + 1));
        i = i + 1;
    }
    let mut out: Vec<char> = Vec::new();
    let mut j: usize = i;
    while j < cs.len()
        invariant
            i <= j <= cs@.len(),
            out@ == cs@.subrange(i as int, j as int),
        decreases cs@.len() - j,
    {
        out.push(cs[j]);
        j = j + 1;
        assert(out@ =~= cs@.subrange(i as int, j as int));
    }
    assert(out@ =~= cs@.skip(i as int));
    crate::text::string_of(out.as_slice())
}

/// The installer asset published for Windows or for Linux.
pub open spec fn spec_platform_asset_name(windows: bool) -> Seq<char> {
    if windows {
        "ytb-dl-tui-install-windows-x86_64.exe"@
    } else {
        "ytb-dl-tui-install-linux-x86_64"@
    }
}

/// The installer asset name for Windows (`windows`) or Linux.
pub fn platform_asset_name_for(windows: bool) -> (r: &'static str)
    ensures
        r@ == spec_platform_asset_name(windows),
{
    if windows {
        "ytb-dl-tui-install-windows-x86_64.exe"
    } else {
        "ytb-dl-tui-install-linux-x86_64"
    }
}

/// The installer asset name for the platform the library was built for.
pub fn platform_asset_name() -> (r: &'static str)
    ensures
        r@ == spec_platform_asset_name(true) || r@ == spec_platform_asset_name(false),
{
    platform_asset_name_for(target_is_windows())
}

/// Index of the first asset called `name`, if any.
pub open spec fn first_named(assets: Seq<ReleaseAsset>, name: Seq<char>) -> Option<int>
    decreases assets.len(),
{
    if assets.len() == 0 {
        None
    } else if assets[0].name@ == name {
        Some(0)
    } else {
        match first_named(assets.drop_first(), name) {
            Some(i) => Some(i + 1),
            None => None,
        }
    }
}

/// `first_named` finds the first asset with the name, and finds nothing
/// exactly when no asset has it.
pub proof fn lemma_first_named(assets: Seq<ReleaseAsset>, name: Seq<char>)
    ensures
        match first_named(assets, name) {
            Some(i) => 0 <= i < assets.len() && assets[i].name@ == name && forall|j: int|
                0 <= j < i ==> assets[j].name@ != name,
            None => forall|j: int| 0 <= j < assets.len() ==> assets[j].name@ != name,
        },
    decreases assets.len(),
{
    if assets.len() > 0 && assets[0].name@ != name {
        let rest = assets.drop_first();
        lemma_first_named(rest, name);
        assert forall|j: int| 1 <= j < assets.len() implies assets[j] == rest[j - 1] by {}
    }
}

/// What the update check concludes from a release: `Ok(None)` when its
/// version (tag minus leading `v`s) is not newer than `current`; otherwise
/// the first asset named for this platform, or `NoAsset` when there is
/// none.
pub open spec fn spec_evaluate(rel: Release, current: Seq<char>, windows: bool) -> Result<
    Option<(Seq<char>, Seq<char>, Seq<char>, Seq<char>)>,
    Seq<char>,
> {
    let latest = strip_v(rel.tag_name@);
    let wanted = spec_platform_asset_name(windows);
    if !spec_is_newer(latest, current) {
        Ok(None)
    } else {
        match first_named(rel.assets@, wanted) {
            Some(i) => Ok(
                Some(
                    (latest, rel.body@, rel.assets@[i].browser_download_url@, rel.assets@[i].name@),
                ),
            ),
            None => Err(wanted),
        }
    }
}

impl UpdateInfo {
    pub open spec fn spec_fields(&self) -> (Seq<char>, Seq<char>, Seq<char>, Seq<char>) {
        (self.version@, self.notes@, self.asset_url@, self.asset_name@)
    }
}

/// Compares a release against the running version `current` and picks the
/// installer for Windows (`windows`) or Linux.
pub fn evaluate_release(rel: &Release, current: &str, windows: bool) -> (r: Result<
    Option<UpdateInfo>,
    UpdateError,
>)
    ensures
        match (r, spec_evaluate(*rel, current@, windows)) {
            (Ok(None), Ok(None)) => true,
            (Ok(Some(info)), Ok(Some(f))) => info.spec_fields() == f,
            (Err(UpdateError::NoAsset(n)), Err(w)) => n@ == w,
            _ => false,
        },
{
    let latest = strip_v_exec(rel.tag_name.as_str());
    if !is_newer(latest.as_str(), current) {
        return Ok(None);
    }
    let wanted = platform_asset_name_for(windows);
    let mut i: usize = 0;
    proof {
        lemma_first_named(rel.assets@, wanted@);
    }
    while i < rel.assets.len()
        invariant
            i <= rel.assets@.len(),
            latest@ == strip_v(rel.tag_name@),
            spec_is_newer(latest@, current@),
            forall|j: int| 0 <= j < i ==> rel.assets@[j].name@ != wanted@,
            wanted@ == spec_platform_asset_name(windows),
            match first_named(rel.assets@, wanted@) {
                Some(k) => 0 <= k < rel.assets@.len() && rel.assets@[k].name@ == wanted@ && forall|
                    j: int,
                | 0 <= j < k ==> rel.assets@[j].name@ != wanted@,
                None => forall|j: int|
                    0 <= j < rel.assets@.len() ==> rel.assets@[j].name@ != wanted@,
            },
        decreases rel.assets@.len() - i,
    {
        let a = &rel.assets[i];
        if str_eq(a.name.as_str(), wanted) {
            assert(first_named(rel.assets@, wanted@) == Some(i as int));
            let info = UpdateInfo {
                version: latest,
                notes: rel.body.clone(),
                asset_url: a.browser_download_url.clone(),
                asset_name: a.name.clone(),
            };
            assert(info.version@ == strip_v(rel.tag_name@));
            assert(info.notes@ == rel.body@);
            assert(info.asset_url@ == rel.assets@[i as int].browser_download_url@);
            assert(info.asset_name@ == rel.assets@[i as int].name@);
            assert(spec_evaluate(*rel, current@, windows) == Ok::<
                Option<(Seq<char>, Seq<char>, Seq<char>, Seq<char>)>,
                Seq<char>,
            >(Some(info.spec_fields())));
            return Ok(Some(info));
        }
        i = i + 1;
    }
    assert(first_named(rel.assets@, wanted@) is None);
    Err(UpdateError::NoAsset(String::from_str(wanted)))
}

/// The update check from the release description as JSON: malformed
/// descriptions are `MalformedRelease`, the rest as `evaluate_release`.
pub fn check_release_json(v: &JsonValue, current: &str, windows: bool) -> (r: Result<
    Option<UpdateInfo>,
    UpdateError,
>)
    ensures
        !spec_release_ok(*v) <==> r == Err::<Option<UpdateInfo>, UpdateError>(
            UpdateError::MalformedRelease,
        ),
        spec_release_ok(*v) ==> exists|rel: Release|
            {
                &&& json_get(*v, "tag_name"@) matches Some(t) && json_as_str(t) == Some(
                    rel.tag_name@,
                )
                &&& rel.body@ == spec_release_body(*v)
                &&& match (r, spec_evaluate(rel, current@, windows)) {
                    (Ok(None), Ok(None)) => true,
                    (Ok(Some(info)), Ok(Some(f))) => info.spec_fields() == f,
                    (Err(UpdateError::NoAsset(n)), Err(w)) => n@ == w,
                    _ => false,
                }
            },
{
    match release_from_json(v) {
        Some(rel) => evaluate_release(&rel, current, windows),
        None => Err(UpdateError::MalformedRelease),
    }
}

/// The update check from the release description as the server sent it:
/// text that is not JSON is `NotJson` with serde_json's error text, a
/// document is checked as `check_release_json` checks it.
pub fn check_release_body(body: &[u8], current: &str, windows: bool) -> (r: Result<
    Option<UpdateInfo>,
    UpdateError,
>)
    ensures
        match json_of(body@) {
            Err(e) => r matches Err(UpdateError::NotJson(m)) && m@ == e,
            Ok(v) => {
                &&& !spec_release_ok(v) <==> r == Err::<Option<UpdateInfo>, UpdateError>(
                    UpdateError::MalformedRelease,
                )
                &&& spec_release_ok(v) ==> exists|rel: Release|
                    {
                        &&& json_get(v, "tag_name"@) matches Some(t) && json_as_str(t) == Some(
                            rel.tag_name@,
                        )
                        &&& rel.body@ == spec_release_body(v)
                        &&& match (r, spec_evaluate(rel, current@, windows)) {
                            (Ok(None), Ok(None)) => true,
                            (Ok(Some(info)), Ok(Some(f))) => info.spec_fields() == f,
                            (Err(UpdateError::NoAsset(n)), Err(w)) => n@ == w,
                            _ => false,
                        }
                    }
            },
        },
{
    match parse_json(body) {
        Ok(v) => check_release_json(&v, current, windows),
        Err(e) => Err(UpdateError::NotJson(e)),
    }
}

// ---------------------------------------------------------------------------
// Which components to reinstall
// ---------------------------------------------------------------------------

/// Which app(s) are installed next to the running executable -- an update
/// reinstalls the same ones.
#[derive(Debug, Clone, Copy, PartialEq, Eq, Structural)]
pub struct InstalledComponents {
    pub tui: bool,
    pub gui: bool,
}

/// An app's executable file name: the stem, plus `.exe` on Windows.
pub open spec fn spec_exe_name(stem: Seq<char>, windows: bool) -> Seq<char> {
    if windows {
        stem + ".exe"@
    } else {
        stem
    }
}

/// `stem`, plus `.exe` on Windows (`windows`).
pub fn exe_name_for(stem: &str, windows: bool) -> (r: String)
    ensures
        r@ == spec_exe_name(stem@, windows),
{
    if windows {
        concat(stem, ".exe")
    } else {
        String::from_str(stem)
    }
}

/// Where the terminal app and the desktop app would be, in `dir`.
pub fn component_exe_paths(dir: &str, windows: bool) -> (r: (String, String))
    ensures
        r.0@ == path_join_on(windows, dir@, spec_exe_name("ytb_dl_tui"@, windows)),
        r.1@ == path_join_on(windows, dir@, spec_exe_name("vidsave"@, windows)),
{
    let t = exe_name_for("ytb_dl_tui", windows);
    let g = exe_name_for("vidsave", windows);
    (join_path_on(windows, dir, t.as_str()), join_path_on(windows, dir, g.as_str()))
}

/// The installed components, from whether the executable's directory is
/// known and whether each app's file is there. When the directory cannot
/// be told, both count as installed: better to reinstall both than to drop
/// one silently.
pub fn installed_components(dir_known: bool, tui_present: bool, gui_present: bool) -> (r:
    InstalledComponents)
    ensures
        r.tui == (!dir_known || tui_present),
        r.gui == (!dir_known || gui_present),
{
    if !dir_known {
        InstalledComponents { tui: true, gui: true }
    } else {
        InstalledComponents { tui: tui_present, gui: gui_present }
    }
}

pub open spec fn spec_installer_args(c: InstalledComponents) -> Seq<Seq<char>> {
    seq!["--silent"@] + (if c.tui {
        Seq::empty()
    } else {
        seq!["--no-tui"@]
    }) + (if c.gui {
        Seq::empty()
    } else {
        seq!["--no-gui"@]
    })
}

/// The arguments the downloaded installer is launched with: `--silent`,
/// and `--no-tui` / `--no-gui` for a component that is not installed.
pub fn installer_args(c: InstalledComponents) -> (r: Vec<String>)
    ensures
        views(r@) == spec_installer_args(c),
{
    let mut v: Vec<String> = Vec::new();
    v.push(String::from_str("--silent"));
    if !c.tui {
        v.push(String::from_str("--no-tui"));
    }
    if !c.gui {
        v.push(String::from_str("--no-gui"));
    }
    proof {
        reveal_strlit("--silent");
        reveal_strlit("--no-tui");
        reveal_strlit("--no-gui");
    }
    assert(views(v@) =~= spec_installer_args(c));
    v
}

/// Where the downloaded installer is written: `vidsave-update/<asset>` in
/// the temporary directory.
pub fn installer_download_path(temp_dir: &str, info: &UpdateInfo, windows: bool) -> (r: String)
    ensures
        r@ == path_join_on(windows, path_join_on(windows, temp_dir@, "vidsave-update"@), info.asset_name@),
{
    let d = join_path_on(windows, temp_dir, "vidsave-update");
    join_path_on(windows, d.as_str(), info.asset_name.as_str())
}

} // verus!
