//! Making the install directory runnable by name from any new terminal.
//! Reading and writing the shell start-up files and the registry happens
//! outside the library; decided here are whether the directory is already
//! on `PATH`, the block appended to each start-up file, which files get
//! it, and what the user is told.

use vstd::prelude::*;

use crate::text::{chars_eq, chars_of, concat, contains, contains_chars, split_char, split_on, views};

verus! {

/// What happened when adding a directory to `PATH`.
#[derive(Debug, PartialEq, Eq)]
pub enum PathAction {
    /// The directory (or one naming the same place) was on `PATH` already.
    AlreadyPresent,
    /// The directory was added; the text says where, for the summary, and
    /// a new terminal is needed before it takes effect.
    Added(String),
}

// ---------------------------------------------------------------------------
// Comparing paths the way `Path`'s `==` does on Unix
// ---------------------------------------------------------------------------

/// The pieces between slashes that name something: empty pieces (from
/// repeated or trailing slashes) and `.` pieces are dropped.
pub open spec fn kept_parts(ps: Seq<Seq<char>>) -> Seq<Seq<char>>
    decreases ps.len(),
{
    if ps.len() == 0 {
        Seq::empty()
    } else {
        let prev = kept_parts(ps.drop_last());
        let p = ps.last();
        if p.len() == 0 || p == "."@ {
            prev
        } else {
            prev.push(p)
        }
    }
}

/// A Unix path's components, as `Path::components` yields them: whether it
/// starts at the root, whether it starts with a `.` of its own (only for a
/// relative path), and the named parts in order.
pub open spec fn components(s: Seq<char>) -> (bool, bool, Seq<Seq<char>>) {
    let pieces = split_on(s, '/');
    let absolute = s.len() > 0 && s[0] == '/';
    (absolute, !absolute && pieces[0] == "."@, kept_parts(pieces))
}

fn parts_of(s: &str) -> (r: (bool, bool, Vec<String>))
    ensures
        r.0 == components(s@).0,
        r.1 == components(s@).1,
        views(r.2@) == components(s@).2,
{
    let cs = chars_of(s);
    let pieces = split_char(cs.as_slice(), '/');
    proof {
        crate::text::lemma_split_on_nonempty(s@, '/');
    }
    let absolute = cs.len() > 0 && cs[0] == '/';
    let dot = chars_of(".");
    let first = chars_of(pieces[0].as_str());
    assert(pieces@[0]@ == split_on(s@, '/')[0]);
    let cur = !absolute && chars_eq(first.as_slice(), dot.as_slice());
    let mut kept: Vec<String> = Vec::new();
    let mut i: usize = 0;
    assert(views(pieces@).take(0) =~= Seq::<Seq<char>>::empty());
    while i < pieces.len()
        invariant
            i <= pieces@.len(),
            dot@ == "."@,
            views(pieces@) == split_on(s@, '/'),
            views(kept@) == kept_parts(views(pieces@).take(i as int)),
        decreases pieces@.len() - i,
    {
        let p = chars_of(pieces[i].as_str());
        let ghost vp = views(pieces@);
        assert(vp.take(i + 1).drop_last() =~= vp.take(i as int));
        assert(vp.take(i + 1).last() == pieces@[i as int]@);
        if !(p.len() == 0 || chars_eq(p.as_slice(), dot.as_slice())) {
            let ghost before = views(kept@);
            kept.push(pieces[i].clone());
            assert(views(kept@) =~= before.push(pieces@[i as int]@));
        }
        i = i + 1;
    }
    assert(views(pieces@).take(pieces@.len() as int) =~= views(pieces@));
    (absolute, cur, kept)
}

/// Whether two Unix paths name the same place the way `Path`'s `==`
/// decides it: the same components.
pub fn same_path(a: &str, b: &str) -> (r: bool)
    ensures
        r == (components(a@) == components(b@)),
{
    let (aa, ac, ap) = parts_of(a);
    let (ba, bc, bp) = parts_of(b);
    if aa != ba || ac != bc || ap.len() != bp.len() {
        proof {
            if ap.len() != bp.len() {
                assert(views(ap@).len() != views(bp@).len());
            }
        }
        return false;
    }
    let mut i: usize = 0;
    while i < ap.len()
        invariant
            i <= ap@.len(),
            ap@.len() == bp@.len(),
            views(ap@) == components(a@).2,
            views(bp@) == components(b@).2,
            components(a@).0 == components(b@).0,
            components(a@).1 == components(b@).1,
            forall|j: int| 0 <= j < i ==> ap@[j]@ == bp@[j]@,
        decreases ap@.len() - i,
    {
        let x = chars_of(ap[i].as_str());
        let y = chars_of(bp[i].as_str());
        if !chars_eq(x.as_slice(), y.as_slice()) {
            assert(views(ap@)[i as int] == ap@[i as int]@);
            assert(views(bp@)[i as int] == bp@[i as int]@);
            assert(views(ap@) != views(bp@));
            assert(components(a@).2 != components(b@).2);
            return false;
        }
        i = i + 1;
    }
    assert(views(ap@) =~= views(bp@));
    true
}

/// Whether `dir` is among the `PATH` entries (compared as paths).
pub fn dir_on_path(entries: &Vec<String>, dir: &str) -> (r: bool)
    ensures
        r == exists|i: int| 0 <= i < entries@.len() && components(#[trigger] entries@[i]@) == components(dir@),
{
    let mut i: usize = 0;
    while i < entries.len()
        invariant
            i <= entries@.len(),
            forall|j: int| 0 <= j < i ==> components(#[trigger] entries@[j]@) != components(dir@),
        decreases entries@.len() - i,
    {
        if same_path(entries[i].as_str(), dir) {
            return true;
        }
        i = i + 1;
    }
    false
}

// ---------------------------------------------------------------------------
// Unix: the shell start-up files
// ---------------------------------------------------------------------------

pub open spec fn MARKER_START() -> Seq<char> {
    "# >>> VidSave PATH >>>"@
}

/// The block appended to a start-up file: between our markers, a line
/// putting `dir` first on `PATH`.
pub open spec fn spec_path_block(dir: Seq<char>) -> Seq<char> {
    "\n# >>> VidSave PATH >>>\nexport PATH=\""@ + dir + ":$PATH\"\n# <<< VidSave PATH <<<\n"@
}

pub fn path_block(dir: &str) -> (r: String)
    ensures
        r@ == spec_path_block(dir@),
{
    let a = concat("\n# >>> VidSave PATH >>>\nexport PATH=\"", dir);
    concat(a.as_str(), ":$PATH\"\n# <<< VidSave PATH <<<\n")
}

/// A fresh `.profile`'s contents: the block without its leading newline.
pub fn profile_contents(dir: &str) -> (r: String)
    ensures
        r@ == spec_path_block(dir@).drop_first(),
{
    let a = concat("# >>> VidSave PATH >>>\nexport PATH=\"", dir);
    let r = concat(a.as_str(), ":$PATH\"\n# <<< VidSave PATH <<<\n");
    proof {
        reveal_strlit("\n# >>> VidSave PATH >>>\nexport PATH=\"");
        reveal_strlit("# >>> VidSave PATH >>>\nexport PATH=\"");
        assert(spec_path_block(dir@).drop_first() =~= r@);
    }
    r
}

/// The start-up files looked at, in order: one sourced by new terminal tabs
/// for bash, one for zsh, and the login profile.
pub open spec fn spec_rc_candidates() -> Seq<Seq<char>> {
    seq![".bashrc"@, ".zshrc"@, ".profile"@]
}

pub fn rc_candidates() -> (r: Vec<&'static str>)
    ensures
        r@.len() == 3,
        forall|i: int| 0 <= i < 3 ==> r@[i]@ == spec_rc_candidates()[i],
{
    let mut v: Vec<&'static str> = Vec::new();
    v.push(".bashrc");
    v.push(".zshrc");
    v.push(".profile");
    v
}

/// Whether a start-up file already carries our block.
pub fn has_marker(contents: &str) -> (r: bool)
    ensures
        r == contains(contents@, MARKER_START()),
{
    let cs = chars_of(contents);
    let m = chars_of("# >>> VidSave PATH >>>");
    contains_chars(cs.as_slice(), m.as_slice())
}

/// Progress through the candidate start-up files: whether any existed,
/// whether one already had our block, and the files the block was
/// appended to.
#[derive(Debug)]
pub struct RcUpdate {
    pub any_file_existed: bool,
    pub already_had_marker: bool,
    pub touched: Vec<String>,
}

/// `parts` joined with `", "`.
pub open spec fn join_comma(parts: Seq<Seq<char>>) -> Seq<char>
    decreases parts.len(),
{
    if parts.len() == 0 {
        Seq::empty()
    } else if parts.len() == 1 {
        parts[0]
    } else {
        join_comma(parts.drop_last()) + ", "@ + parts.last()
    }
}

fn join_comma_exec(parts: &Vec<String>) -> (r: String)
    ensures
        r@ == join_comma(views(parts@)),
{
    if parts.len() == 0 {
        return String::new();
    }
    let mut out = parts[0].clone();
    let mut i: usize = 1;
    assert(views(parts@).take(1) =~= seq![parts@[0]@]);
    while i < parts.len()
        invariant
            1 <= i <= parts@.len(),
            out@ == join_comma(views(parts@).take(i as int)),
        decreases parts@.len() - i,
    {
        let ghost prev = views(parts@).take(i as int);
        let a = concat(out.as_str(), ", ");
        out = concat(a.as_str(), parts[i].as_str());
        i = i + 1;
        assert(views(parts@).take(i as int).drop_last() =~= prev);
    }
    assert(views(parts@).take(parts@.len() as int) =~= views(parts@));
    out
}

impl RcUpdate {
    pub fn new() -> (r: Self)
        ensures
            !r.any_file_existed,
            !r.already_had_marker,
            r.touched@.len() == 0,
    {
        RcUpdate { any_file_existed: false, already_had_marker: false, touched: Vec::new() }
    }

    /// Looks at one candidate: `contents` is `None` when it is not a file.
    /// Returns whether to append the block to it -- never to a file that
    /// did not exist (no start-up files are invented), nor to one already
    /// set up by an earlier run.
    pub fn visit(&mut self, contents: Option<&str>) -> (append: bool)
        ensures
            contents is None ==> !append && final(self).any_file_existed == old(self).any_file_existed
                && final(self).already_had_marker == old(self).already_had_marker,
            contents matches Some(c) ==> final(self).any_file_existed && append == !contains(
                c@,
                MARKER_START(),
            ) && final(self).already_had_marker == (old(self).already_had_marker || !append),
            final(self).touched == old(self).touched,
    {
        match contents {
            None => false,
            Some(c) => {
                self.any_file_existed = true;
                if has_marker(c) {
                    self.already_had_marker = true;
                    false
                } else {
                    true
                }
            },
        }
    }

    /// Notes that the block was appended to `path`.
    pub fn appended(&mut self, path: String)
        ensures
            final(self).touched@ == old(self).touched@.push(path),
            final(self).any_file_existed == old(self).any_file_existed,
            final(self).already_had_marker == old(self).already_had_marker,
    {
        self.touched.push(path);
    }

    /// After every candidate: when none existed, a fresh `.profile` (at
    /// `profile_path`) is to be created (first result) and reported; when
    /// nothing was appended because every file was already set up, the
    /// directory counts as already present; otherwise the files touched are
    /// reported, comma-separated.
    pub fn finish(&self, profile_path: &str) -> (r: (bool, PathAction))
        ensures
            r.0 == !self.any_file_existed,
            !self.any_file_existed ==> (r.1 matches PathAction::Added(w) && w@ == join_comma(
                views(self.touched@).push(profile_path@),
            )),
            self.any_file_existed && self.touched@.len() == 0 && self.already_had_marker ==> r.1
                is AlreadyPresent,
            self.any_file_existed && !(self.touched@.len() == 0 && self.already_had_marker) ==> (
            r.1 matches PathAction::Added(w) && w@ == join_comma(views(self.touched@))),
    {
        if !self.any_file_existed {
            let mut all: Vec<String> = Vec::new();
            let mut i: usize = 0;
            while i < self.touched.len()
                invariant
                    i <= self.touched@.len(),
                    all@ == self.touched@.take(i as int),
                decreases self.touched@.len() - i,
            {
                all.push(self.touched[i].clone());
                i = i + 1;
                assert(all@ =~= self.touched@.take(i as int));
            }
            assert(self.touched@.take(self.touched@.len() as int) =~= self.touched@);
            all.push(String::from_str(profile_path));
            assert(views(all@) =~= views(self.touched@).push(profile_path@));
            (true, PathAction::Added(join_comma_exec(&all)))
        } else if self.touched.len() == 0 && self.already_had_marker {
            (false, PathAction::AlreadyPresent)
        } else {
            (false, PathAction::Added(join_comma_exec(&self.touched)))
        }
    }
}

// ---------------------------------------------------------------------------
// Windows: the user's registry `Path`
// ---------------------------------------------------------------------------

/// `s` without trailing `;`s.
pub open spec fn trim_semicolons(s: Seq<char>) -> Seq<char>
    decreases s.len(),
{
    if s.len() > 0 && s.last() == ';' {
        trim_semicolons(s.drop_last())
    } else {
        s
    }
}

/// The user's `Path` value with `dir` appended: trailing `;`s dropped, then
/// `;dir` -- or just `dir` when nothing is left.
pub open spec fn spec_windows_path_value(current: Seq<char>, dir: Seq<char>) -> Seq<char> {
    let t = trim_semicolons(current);
    if t.len() == 0 {
        dir
    } else {
        t + ";"@ + dir
    }
}

pub fn windows_path_value(current: &str, dir: &str) -> (r: String)
    ensures
        r@ == spec_windows_path_value(current@, dir@),
{
    let cs = chars_of(current);
    let mut n: usize = cs.len();
    assert(cs@.take(n as int) =~= cs@);
    while n > 0 && cs[n - 1] == ';'
        invariant
            n <= cs@.len(),
            trim_semicolons(cs@.take(n as int)) == trim_semicolons(cs@),
        decreases n,
    {
        assert(cs@.take(n as int).drop_last() =~= cs@.take(n - 1));
        n = n - 1;
    }
    if n == 0 {
        return String::from_str(dir);
    }
    let mut t: Vec<char> = Vec::new();
    let mut i: usize = 0;
    while i < n
        invariant
            i <= n <= cs@.len(),
            t@ == cs@.take(i as int),
        decreases n - i,
    {
        t.push(cs[i]);
        i = i + 1;
        assert(t@ =~= cs@.take(i as int));
    }
    let ts = crate::text::string_of(t.as_slice());
    let a = concat(ts.as_str(), ";");
    concat(a.as_str(), dir)
}

/// Where the Windows installer records the directory, for the summary.
pub fn windows_added_description() -> (r: &'static str)
    ensures
        r@ == "your user PATH (HKEY_CURRENT_USER\\Environment)"@,
{
    "your user PATH (HKEY_CURRENT_USER\\Environment)"
}

} // verus!
