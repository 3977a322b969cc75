//! Archive handling for the tools that don't ship as a bare executable.
//! Unpacking is done outside the library; decided here are the archive's
//! format (from the download URL), what to take out of it, and -- when the
//! unpacked tree holds several files of the wanted name -- which one: the
//! largest, since a real binary always dwarfs a stray text file of the same
//! name.

use vstd::prelude::*;

use crate::text::{chars_of, concat};

verus! {

/// The archive formats the installer unpacks.
#[derive(Debug, Clone, Copy, PartialEq, Eq, Structural)]
pub enum ArchiveKind {
    Zip,
    TarXz,
    TarGz,
}

pub open spec fn ends_with(s: Seq<char>, suffix: Seq<char>) -> bool {
    suffix.len() <= s.len() && s.skip(s.len() - suffix.len()) == suffix
}

fn ends_with_exec(s: &Vec<char>, suffix: &str) -> (b: bool)
    ensures
        b == ends_with(s@, suffix@),
{
    let p = chars_of(suffix);
    if p.len() > s.len() {
        return false;
    }
    let off = s.len() - p.len();
    let mut i: usize = 0;
    while i < p.len()
        invariant
            i <= p@.len(),
            off + p@.len() == s@.len(),
            s@.len() == s.len(),
            p@ == suffix@,
            forall|j: int| 0 <= j < i ==> s@[off + j] == p@[j],
        decreases p@.len() - i,
    {
        if s[off + i] != p[i] {
            assert(s@.skip(off as int)[i as int] != suffix@[i as int]);
            return false;
        }
        i = i + 1;
    }
    assert(s@.skip(off as int) =~= suffix@);
    true
}

/// The format named by the URL's ending: `.zip`; `.tar.xz` or `.xz`;
/// `.tar.gz` or `.tgz`; anything else is not recognized.
pub open spec fn spec_archive_kind(url: Seq<char>) -> Option<ArchiveKind> {
    if ends_with(url, ".zip"@) {
        Some(ArchiveKind::Zip)
    } else if ends_with(url, ".tar.xz"@) || ends_with(url, ".xz"@) {
        Some(ArchiveKind::TarXz)
    } else if ends_with(url, ".tar.gz"@) || ends_with(url, ".tgz"@) {
        Some(ArchiveKind::TarGz)
    } else {
        None
    }
}

pub fn archive_kind(url: &str) -> (r: Option<ArchiveKind>)
    ensures
        r == spec_archive_kind(url@),
{
    let cs = chars_of(url);
    if ends_with_exec(&cs, ".zip") {
        Some(ArchiveKind::Zip)
    } else if ends_with_exec(&cs, ".tar.xz") || ends_with_exec(&cs, ".xz") {
        Some(ArchiveKind::TarXz)
    } else if ends_with_exec(&cs, ".tar.gz") || ends_with_exec(&cs, ".tgz") {
        Some(ArchiveKind::TarGz)
    } else {
        None
    }
}

/// Why an archive cannot be handled.
#[derive(Debug, PartialEq, Eq)]
pub enum ExtractError {
    /// The URL's ending names no known archive format.
    UnknownExtension(String),
}

impl ExtractError {
    pub open spec fn spec_message(&self) -> Seq<char> {
        match self {
            ExtractError::UnknownExtension(url) => "don't know how to extract "@ + url@
                + " (unrecognized extension)"@,
        }
    }

    pub fn message(&self) -> (r: String)
        ensures
            r@ == self.spec_message(),
    {
        match self {
            ExtractError::UnknownExtension(url) => {
                let a = concat("don't know how to extract ", url.as_str());
                concat(a.as_str(), " (unrecognized extension)")
            },
        }
    }
}

/// What to do with a downloaded archive: unpack it as `kind` into a
/// scratch directory, then copy each file named `targets[i].0` found in it
/// to `targets[i].1`.
#[derive(Debug)]
pub struct ExtractPlan {
    pub kind: ArchiveKind,
    pub targets: Vec<(String, String)>,
}

/// The plan for pulling several named files out of one archive: nothing to
/// do without targets, an error for an unknown format, and otherwise the
/// format with the targets as given.
pub fn install_many_from_archive(source_url: &str, targets: Vec<(String, String)>) -> (r: Result<
    Option<ExtractPlan>,
    ExtractError,
>)
    ensures
        targets@.len() == 0 ==> r matches Ok(None),
        targets@.len() > 0 ==> match spec_archive_kind(source_url@) {
            Some(k) => r matches Ok(Some(p)) && p.kind == k && p.targets@ == targets@,
            None => r matches Err(ExtractError::UnknownExtension(u)) && u@ == source_url@,
        },
{
    if targets.len() == 0 {
        return Ok(None);
    }
    match archive_kind(source_url) {
        Some(kind) => Ok(Some(ExtractPlan { kind, targets })),
        None => Err(ExtractError::UnknownExtension(String::from_str(source_url))),
    }
}

/// The plan for copying the file named `target_name` out of the archive
/// downloaded from `source_url` to `dest`.
pub fn install_from_archive(source_url: &str, target_name: &str, dest: &str) -> (r: Result<
    ExtractPlan,
    ExtractError,
>)
    ensures
        match spec_archive_kind(source_url@) {
            Some(k) => r matches Ok(p) && p.kind == k && p.targets@.len() == 1
                && p.targets@[0].0@ == target_name@ && p.targets@[0].1@ == dest@,
            None => r matches Err(ExtractError::UnknownExtension(u)) && u@ == source_url@,
        },
{
    let mut targets: Vec<(String, String)> = Vec::new();
    targets.push((String::from_str(target_name), String::from_str(dest)));
    match archive_kind(source_url) {
        Some(kind) => Ok(ExtractPlan { kind, targets }),
        None => Err(ExtractError::UnknownExtension(String::from_str(source_url))),
    }
}

/// A file met while walking the unpacked tree: its path, its file name (if
/// it has one that is valid text) and its size.
#[derive(Debug)]
pub struct FoundFile {
    pub path: String,
    pub name: Option<String>,
    pub size: u64,
}

pub open spec fn named(f: FoundFile, name: Seq<char>) -> bool {
    f.name matches Some(n) && n@ == name
}

/// Among the first `n` files in walking order, the index of the largest
/// one named `name`; of equally large ones the first met.
pub open spec fn best_match(files: Seq<FoundFile>, name: Seq<char>, n: nat) -> Option<int>
    decreases n,
{
    if n == 0 {
        None
    } else {
        let prev = best_match(files, name, (n - 1) as nat);
        let k = n - 1;
        if named(files[k], name) && (prev is None || files[k].size > files[prev->0].size) {
            Some(k as int)
        } else {
            prev
        }
    }
}

proof fn lemma_best_match_range(files: Seq<FoundFile>, name: Seq<char>, n: nat)
    ensures
        best_match(files, name, n) matches Some(i) ==> 0 <= i < n && named(files[i], name),
    decreases n,
{
    if n > 0 {
        lemma_best_match_range(files, name, (n - 1) as nat);
    }
}

/// The path of the file to install: the largest one named `name`, `None`
/// when there is none.
pub fn find_file_by_name(files: &Vec<FoundFile>, name: &str) -> (r: Option<String>)
    ensures
        match best_match(files@, name@, files@.len()) {
            Some(i) => r matches Some(p) && p@ == files@[i].path@,
            None => r is None,
        },
{
    let want = chars_of(name);
    let mut best: Option<usize> = None;
    let mut best_size: u64 = 0;
    let mut i: usize = 0;
    while i < files.len()
        invariant
            i <= files@.len(),
            want@ == name@,
            match best_match(files@, name@, i as nat) {
                Some(k) => 0 <= k < i && best == Some(k as usize) && best_size == files@[k].size,
                None => best is None,
            },
        decreases files@.len() - i,
    {
        proof {
            lemma_best_match_range(files@, name@, i as nat);
        }
        let f = &files[i];
        let is_named = match &f.name {
            Some(n) => crate::text::chars_eq(chars_of(n.as_str()).as_slice(), want.as_slice()),
            None => false,
        };
        if is_named && (best.is_none() || f.size > best_size) {
            best = Some(i);
            best_size = f.size;
        }
        i = i + 1;
    }
    proof {
        lemma_best_match_range(files@, name@, files@.len());
    }
    match best {
        Some(k) => Some(files[k].path.clone()),
        None => None,
    }
}

/// The message when the archive has no file of the wanted name.
pub fn not_found_message(name: &str) -> (r: String)
    ensures
        r@ == "could not find a file named '"@ + name@ + "' inside the downloaded archive"@,
{
    let a = concat("could not find a file named '", name);
    concat(a.as_str(), "' inside the downloaded archive")
}

/// Where an unpacked runtime's files are: inside the archive's single
/// top-level directory when it has exactly one entry and that entry is a
/// directory, else the scratch directory itself. `entries` are the scratch
/// directory's entries with whether each is a directory.
pub fn extraction_root(scratch: &str, entries: &Vec<(String, bool)>) -> (r: String)
    ensures
        r@ == if entries@.len() == 1 && entries@[0].1 {
            entries@[0].0@
        } else {
            scratch@
        },
{
    if entries.len() == 1 && entries[0].1 {
        entries[0].0.clone()
    } else {
        String::from_str(scratch)
    }
}

} // verus!
