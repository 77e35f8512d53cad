//! The two-panel file manager: panel state, the hidden-file filter, cursor
//! placement after a listing, marks, and the planning of copy transfers.

use vstd::prelude::*;

use crate::form::FormField;
use crate::num::{decimal, decimal_chars};
use crate::path_set::PathSet;
use crate::text::{append_chars, append_str, chars_of, owned, str_eq, string_of, views};

verus! {

/// An identifier of one file transfer.
pub type TransferId = u64;

/// One entry of a directory listing.
#[derive(Debug)]
pub struct FileEntry {
    pub name: String,
    pub path: String,
    pub size: u64,
    pub is_dir: bool,
}

impl Clone for FileEntry {
    fn clone(&self) -> (res: Self)
        ensures
            res == *self,
    {
        FileEntry { name: self.name.clone(), path: self.path.clone(), size: self.size, is_dir: self.is_dir }
    }
}

/// Which of the two file panels has focus.
#[derive(Debug, Clone, Copy, PartialEq, Eq, Default, Structural)]
pub enum FmPanel {
    /// The local file system.
    #[default]
    Local,
    /// The remote file system (SFTP).
    Remote,
}

/// Items held in the copy clipboard.
#[derive(Debug, Clone)]
pub struct FmClipboard {
    /// Absolute paths of the copied items.
    pub paths: Vec<String>,
    /// The panel the items were copied from.
    pub source_panel: FmPanel,
}

/// State of one file panel.
#[derive(Debug, Default)]
pub struct FilePanelView {
    /// The directory shown.
    pub cwd: String,
    /// The entries of the last listing, unfiltered.
    pub raw_entries: Vec<FileEntry>,
    /// The entries shown: `raw_entries` through the hidden-file filter.
    pub entries: Vec<FileEntry>,
    /// Cursor index into `entries`.
    pub cursor: usize,
    /// Index of the first visible row.
    pub scroll: usize,
    /// Paths of the marked entries.
    pub marked: PathSet,
    /// Path on which the next listing places the cursor, if it shows it.
    pub pending_focus_path: Option<String>,
    /// Whether entries whose name starts with `.` are shown.
    pub show_hidden: bool,
}

/// An entry is shown: hidden files are shown on request, and `..` always.
pub open spec fn is_shown(e: FileEntry, show_hidden: bool) -> bool {
    show_hidden || e.name@ == ".."@ || !(e.name@.len() > 0 && e.name@[0] == '.')
}

/// The entries of `raw` that are shown, in order.
pub open spec fn shown_entries(raw: Seq<FileEntry>, show_hidden: bool) -> Seq<FileEntry> {
    raw.filter(|e: FileEntry| is_shown(e, show_hidden))
}

/// The index of the first entry with path `p`, or -1.
pub open spec fn index_of_path(entries: Seq<FileEntry>, p: Seq<char>) -> int
    decreases entries.len(),
{
    if entries.len() == 0 {
        -1
    } else if entries[0].path@ == p {
        0
    } else {
        let r = index_of_path(entries.drop_first(), p);
        if r < 0 {
            -1
        } else {
            r + 1
        }
    }
}

/// Where the cursor goes in `entries` when it should follow `target`: onto
/// the first entry with that path, else to the top.
pub open spec fn focus_index(entries: Seq<FileEntry>, target: Option<Seq<char>>) -> int {
    match target {
        Some(p) => if index_of_path(entries, p) >= 0 {
            index_of_path(entries, p)
        } else {
            0
        },
        None => 0,
    }
}

/// The paths of some entries.
pub open spec fn paths_of(entries: Seq<FileEntry>) -> Seq<Seq<char>> {
    entries.map_values(|e: FileEntry| e.path@)
}

/// `index_of_path` finds the first entry with the path, and -1 only when
/// none has it.
pub proof fn lemma_index_of_path(entries: Seq<FileEntry>, p: Seq<char>)
    ensures
        -1 <= index_of_path(entries, p) < entries.len(),
        index_of_path(entries, p) >= 0 ==> entries[index_of_path(entries, p)].path@ == p,
        index_of_path(entries, p) >= 0 ==> forall|j: int|
            0 <= j < index_of_path(entries, p) ==> (#[trigger] entries[j]).path@ != p,
        index_of_path(entries, p) < 0 ==> forall|j: int| 0 <= j < entries.len() ==> (#[trigger] entries[j]).path@ != p,
    decreases entries.len(),
{
    if entries.len() > 0 && entries[0].path@ != p {
        lemma_index_of_path(entries.drop_first(), p);
        assert forall|j: int| 0 < j < entries.len() implies (#[trigger] entries[j]) == entries.drop_first()[j - 1] by {}
    }
}

fn position_of_path(entries: &Vec<FileEntry>, p: &str) -> (res: Option<usize>)
    ensures
        match res {
            Some(i) => i as int == index_of_path(entries@, p@),
            None => index_of_path(entries@, p@) < 0,
        },
{
    let mut i: usize = 0;
    proof {
        lemma_index_of_path(entries@, p@);
    }
    while i < entries.len()
        invariant
            i <= entries.len(),
            forall|j: int| 0 <= j < i ==> (#[trigger] entries@[j]).path@ != p@,
            -1 <= index_of_path(entries@, p@) < entries.len(),
            index_of_path(entries@, p@) >= 0 ==> entries@[index_of_path(entries@, p@)].path@ == p@,
            index_of_path(entries@, p@) >= 0 ==> forall|j: int|
                0 <= j < index_of_path(entries@, p@) ==> (#[trigger] entries@[j]).path@ != p@,
            index_of_path(entries@, p@) < 0 ==> forall|j: int|
                0 <= j < entries.len() ==> (#[trigger] entries@[j]).path@ != p@,
        decreases entries.len() - i,
    {
        if str_eq(entries[i].path.as_str(), p) {
            proof {
                assert(entries@[i as int].path@ == p@);
                if index_of_path(entries@, p@) < 0 || index_of_path(entries@, p@) > i {
                    assert(false);
                }
            }
            return Some(i);
        }
        i = i + 1;
    }
    None
}

fn focus_of(entries: &Vec<FileEntry>, target: &Option<String>) -> (res: usize)
    ensures
        res as int == focus_index(
            entries@,
            match target {
                Some(t) => Some(t@),
                None => None,
            },
        ),
{
    match target {
        Some(t) => match position_of_path(entries, t.as_str()) {
            Some(i) => i,
            None => 0,
        },
        None => 0,
    }
}

fn shown_exec(e: &FileEntry, show_hidden: bool) -> (res: bool)
    ensures
        res == is_shown(*e, show_hidden),
{
    if show_hidden || str_eq(e.name.as_str(), "..") {
        return true;
    }
    let cs = chars_of(e.name.as_str());
    !(cs.len() > 0 && cs[0] == '.')
}

impl FilePanelView {
    /// The entry under the cursor, if any.
    pub fn cursor_entry(&self) -> (res: Option<&FileEntry>)
        ensures
            match res {
                Some(e) => self.cursor < self.entries.len() && *e == self.entries@[self.cursor as int],
                None => self.cursor >= self.entries.len(),
            },
    {
        if self.cursor < self.entries.len() {
            Some(&self.entries[self.cursor])
        } else {
            None
        }
    }

    /// The paths to operate on: every marked path, else the path of the
    /// entry under the cursor unless it is `..`.
    pub fn marked_or_cursor_paths(&self) -> (res: Vec<String>)
        ensures
            self.marked.contents() != Set::<Seq<char>>::empty() ==> views(res@).to_set() == self.marked.contents()
                && views(res@).no_duplicates(),
            self.marked.contents() == Set::<Seq<char>>::empty() ==> views(res@) == if self.cursor
                < self.entries.len() && self.entries@[self.cursor as int].name@ != ".."@ {
                seq![self.entries@[self.cursor as int].path@]
            } else {
                Seq::<Seq<char>>::empty()
            },
    {
        if !self.marked.is_empty() {
            return self.marked.to_vec();
        }
        let out: Vec<String> = match self.cursor_entry() {
            Some(e) => if !str_eq(e.name.as_str(), "..") {
                vec![owned(e.path.as_str())]
            } else {
                Vec::new()
            },
            None => Vec::new(),
        };
        assert(views(out@) =~= if self.cursor < self.entries.len() && self.entries@[self.cursor as int].name@
            != ".."@ {
            seq![self.entries@[self.cursor as int].path@]
        } else {
            Seq::<Seq<char>>::empty()
        });
        out
    }

    /// Moves the cursor down one row, staying in bounds.
    pub fn select_next(&mut self)
        requires
            old(self).cursor < usize::MAX,
        ensures
            final(self).cursor == if old(self).entries.len() == 0 {
                old(self).cursor as int
            } else if old(self).cursor + 1 < old(self).entries.len() {
                old(self).cursor + 1
            } else {
                old(self).entries.len() - 1
            },
            *final(self) == (FilePanelView { cursor: final(self).cursor, ..*old(self) }),
    {
        if self.entries.len() > 0 {
            let last = self.entries.len() - 1;
            let next = self.cursor + 1;
            self.cursor = if next < last { next } else { last };
        }
    }

    /// Moves the cursor up one row, staying in bounds.
    pub fn select_prev(&mut self)
        ensures
            final(self).cursor == if old(self).cursor == 0 {
                0
            } else {
                old(self).cursor - 1
            },
            *final(self) == (FilePanelView { cursor: final(self).cursor, ..*old(self) }),
    {
        self.cursor = if self.cursor == 0 { 0 } else { self.cursor - 1 };
    }

    /// Rebuilds `entries` from `raw_entries` for `show_hidden`. The cursor
    /// follows the path it was on, or goes to the top when that entry is no
    /// longer shown; marks on entries no longer shown are dropped.
    pub fn apply_hidden_filter(&mut self)
        ensures
            final(self).entries@ == shown_entries(old(self).raw_entries@, old(self).show_hidden),
            final(self).cursor == focus_index(
                final(self).entries@,
                if old(self).cursor < old(self).entries.len() {
                    Some(old(self).entries@[old(self).cursor as int].path@)
                } else {
                    None
                },
            ),
            final(self).marked.contents() == old(self).marked.contents().filter(
                |p: Seq<char>| paths_of(final(self).entries@).contains(p),
            ),
            final(self).raw_entries == old(self).raw_entries,
            final(self).show_hidden == old(self).show_hidden,
            final(self).cwd == old(self).cwd,
            final(self).scroll == old(self).scroll,
            final(self).pending_focus_path == old(self).pending_focus_path,
    {
        let prev_path: Option<String> = if self.cursor < self.entries.len() {
            Some(self.entries[self.cursor].path.clone())
        } else {
            None
        };
        let ghost pred = |e: FileEntry| is_shown(e, self.show_hidden);
        let mut shown: Vec<FileEntry> = Vec::new();
        let mut i: usize = 0;
        assert(self.raw_entries@.take(0) =~= Seq::<FileEntry>::empty());
        while i < self.raw_entries.len()
            invariant
                i <= self.raw_entries.len(),
                pred == (|e: FileEntry| is_shown(e, self.show_hidden)),
                shown@ == self.raw_entries@.take(i as int).filter(pred),
            decreases self.raw_entries.len() - i,
        {
            proof {
                assert(self.raw_entries@.take(i + 1) =~= self.raw_entries@.take(i as int).push(
                    self.raw_entries@[i as int],
                ));
                self.raw_entries@.take(i as int).lemma_filter_push(self.raw_entries@[i as int], pred);
            }
            if shown_exec(&self.raw_entries[i], self.show_hidden) {
                shown.push(self.raw_entries[i].clone());
            }
            i = i + 1;
        }
        assert(self.raw_entries@.take(self.raw_entries.len() as int) =~= self.raw_entries@);
        self.entries = shown;
        self.cursor = focus_of(&self.entries, &prev_path);
        let mut visible: Vec<String> = Vec::new();
        let mut k: usize = 0;
        while k < self.entries.len()
            invariant
                k <= self.entries.len(),
                views(visible@) == paths_of(self.entries@).take(k as int),
            decreases self.entries.len() - k,
        {
            let ghost before = views(visible@);
            visible.push(self.entries[k].path.clone());
            assert(views(visible@) =~= before.push(self.entries@[k as int].path@));
            assert(paths_of(self.entries@).take(k + 1) =~= paths_of(self.entries@).take(k as int).push(
                self.entries@[k as int].path@,
            ));
            k = k + 1;
        }
        assert(paths_of(self.entries@).take(self.entries.len() as int) =~= paths_of(self.entries@));
        self.marked.retain_listed(&visible);
    }

    /// Applies a fresh directory listing: stores `raw`, filters it, places
    /// the cursor on `pending_focus_path` when that entry is shown (else on
    /// the top row) and clears that request, resets the scroll and drops
    /// every mark.
    pub fn apply_listing(&mut self, raw: Vec<FileEntry>)
        ensures
            final(self).raw_entries@ == raw@,
            final(self).entries@ == shown_entries(raw@, old(self).show_hidden),
            final(self).cursor == focus_index(
                final(self).entries@,
                match old(self).pending_focus_path {
                    Some(t) => Some(t@),
                    None => None,
                },
            ),
            final(self).pending_focus_path is None,
            final(self).scroll == 0,
            final(self).marked.contents() == Set::<Seq<char>>::empty(),
            final(self).show_hidden == old(self).show_hidden,
            final(self).cwd == old(self).cwd,
    {
        self.raw_entries = raw;
        self.apply_hidden_filter();
        let target = self.pending_focus_path.take();
        self.cursor = focus_of(&self.entries, &target);
        self.scroll = 0;
        self.marked.clear();
    }
}

/// Marks follow the visible entries: after the hidden-file filter, every
/// marked path is the path of a shown entry.
pub proof fn lemma_marks_within_shown(before: Set<Seq<char>>, entries: Seq<FileEntry>, p: Seq<char>)
    requires
        before.filter(|q: Seq<char>| paths_of(entries).contains(q)).contains(p),
    ensures
        exists|i: int| 0 <= i < entries.len() && (#[trigger] entries[i]).path@ == p,
{
    let i = choose|i: int| 0 <= i < paths_of(entries).len() && paths_of(entries)[i] == p;
    assert(entries[i].path@ == p);
}

/// The popup shown on the file manager screen.
#[derive(Debug)]
pub enum FileManagerPopup {
    /// Picking the host the remote panel connects to.
    HostPicker { cursor: usize },
    /// Confirming the deletion of one or more items.
    DeleteConfirm { paths: Vec<String> },
    /// Naming a new directory.
    MkDir(FormField),
    /// Renaming the item under the cursor.
    Rename { original_name: String, field: FormField },
    /// Live file-transfer progress.
    TransferProgress { transfer_id: TransferId, filename: String, done: u64, total: u64 },
}

/// All state of the file manager screen.
#[derive(Debug, Default)]
pub struct FileManagerView {
    /// The panel with keyboard focus.
    pub active_panel: FmPanel,
    /// The local (left) panel.
    pub local: FilePanelView,
    /// The remote (right) panel.
    pub remote: FilePanelView,
    /// Name of the connected remote host, if any.
    pub connected_host: Option<String>,
    /// An SFTP connection is being set up.
    pub sftp_connecting: bool,
    /// The copy clipboard.
    pub clipboard: Option<FmClipboard>,
    /// The popup shown, if any.
    pub popup: Option<FileManagerPopup>,
    /// Text shown in the preview zone.
    pub preview_content: Option<String>,
    /// Path whose preview is shown.
    pub preview_path: Option<String>,
    /// Transfer shown in the progress popup.
    pub active_transfer: Option<TransferId>,
    /// Number of queued operations not yet completed.
    pub pending_ops: usize,
}

/// `s` without its trailing `/` characters.
pub open spec fn trim_trailing_slashes(s: Seq<char>) -> Seq<char>
    decreases s.len(),
{
    if s.len() > 0 && s.last() == '/' {
        trim_trailing_slashes(s.drop_last())
    } else {
        s
    }
}

/// The path of `name` inside the directory `dir`.
pub open spec fn child_path(dir: Seq<char>, name: Seq<char>) -> Seq<char> {
    trim_trailing_slashes(dir) + "/"@ + name
}

/// The path of `name` inside the directory `dir`: `dir` without trailing
/// slashes, a slash, then `name`.
pub fn join_path(dir: &str, name: &str) -> (res: String)
    ensures
        res@ == child_path(dir@, name@),
{
    let cs = chars_of(dir);
    let mut n: usize = cs.len();
    assert(cs@.take(n as int) =~= cs@);
    while n > 0 && cs[n - 1] == '/'
        invariant
            n <= cs.len(),
            trim_trailing_slashes(cs@) == trim_trailing_slashes(cs@.take(n as int)),
        decreases n,
    {
        assert(cs@.take(n as int).drop_last() =~= cs@.take(n - 1));
        n = n - 1;
    }
    let mut out: Vec<char> = Vec::new();
    let mut i: usize = 0;
    while i < n
        invariant
            i <= n <= cs.len(),
            out@ == cs@.take(i as int),
        decreases n - i,
    {
        out.push(cs[i]);
        assert(cs@.take(i + 1) =~= cs@.take(i as int).push(cs@[i as int]));
        i = i + 1;
    }
    assert(trim_trailing_slashes(cs@.take(n as int)) == cs@.take(n as int));
    append_str(&mut out, "/");
    append_str(&mut out, name);
    string_of(&out)
}

/// The text after the last `/` of `p`; all of `p` when it has none.
pub open spec fn last_segment(p: Seq<char>) -> Seq<char>
    decreases p.len(),
{
    if p.len() == 0 {
        p
    } else if p.last() == '/' {
        Seq::empty()
    } else {
        last_segment(p.drop_last()).push(p.last())
    }
}

/// The text before the last `/` of `p`; empty when it has none.
pub open spec fn dir_part(p: Seq<char>) -> Seq<char> {
    if last_segment(p).len() < p.len() {
        p.take(p.len() - last_segment(p).len() - 1)
    } else {
        Seq::empty()
    }
}

/// A path that every platform splits at `/` alone: it holds no `\\` and
/// no `:` (so no Windows prefix), and does not start with `//`.
pub open spec fn slash_path(p: Seq<char>) -> bool {
    &&& !p.contains('\\')
    &&& !p.contains(':')
    &&& !(p.len() >= 2 && p[0] == '/' && p[1] == '/')
}

/// An ordinary path component: not empty, not `.` or `..`, and free of
/// separators and `:`.
pub open spec fn plain_component(n: Seq<char>) -> bool {
    &&& n.len() > 0
    &&& n != "."@
    &&& n != ".."@
    &&& !n.contains('/')
    &&& !n.contains('\\')
    &&& !n.contains(':')
}

/// A path whose last component, and the component before it if any, are
/// ordinary: `name`, `/name`, or `dir/name` with `dir` ending in an
/// ordinary component.
pub open spec fn simple_path(p: Seq<char>) -> bool {
    &&& slash_path(p)
    &&& plain_component(last_segment(p))
    &&& dir_part(p).len() == 0 || plain_component(last_segment(dir_part(p)))
}

/// What `Path::parent` gives, as text, for a simple path: the text before
/// the last `/`, `/` for `/name`, and empty for a lone `name`.
pub open spec fn simple_parent(p: Seq<char>) -> Seq<char> {
    if last_segment(p).len() < p.len() && dir_part(p).len() == 0 {
        "/"@
    } else {
        dir_part(p)
    }
}

/// `std::path::Path::parent` of `p`, as text. As its documentation shows,
/// it is the path without its final component (`/foo/bar` gives `/foo`,
/// `/foo` gives `/`, a lone `foo` gives the empty path) and there is none
/// for `/`. That is stated for simple paths, which every platform splits at
/// `/` alone; for other paths (repeated or trailing separators, `.` and
/// `..`, Windows prefixes) the contract says nothing.
#[verifier::external_body]
fn std_path_parent(p: &str) -> (res: Option<String>)
    ensures
        p@ == "/"@ ==> res is None,
        simple_path(p@) ==> res is Some && res.unwrap()@ == simple_parent(p@),
{
    std::path::Path::new(p).parent().map(|q| q.to_string_lossy().into_owned())
}

/// `std::path::Path::file_name` of `p`, as text: the final component when it
/// is an ordinary name, as its documentation shows (`tmp/foo.txt` gives
/// `foo.txt`). That is stated for paths that every platform splits at `/`
/// alone and whose text after the last `/` is an ordinary component; for
/// other paths the contract says nothing.
#[verifier::external_body]
fn std_path_file_name(p: &str) -> (res: Option<String>)
    ensures
        slash_path(p@) && plain_component(last_segment(p@)) ==> res is Some && res.unwrap()@
            == last_segment(p@),
{
    std::path::Path::new(p).file_name().and_then(|n| n.to_str()).map(|n| n.to_owned())
}

/// The directory to list when going up from a directory whose parent path
/// is `parent`: none at the root, `/` when the parent is empty.
pub fn parent_or_root(parent: Option<String>) -> (res: Option<String>)
    ensures
        match parent {
            None => res is None,
            Some(p) => res is Some && res->0@ == if p@.len() == 0 {
                "/"@
            } else {
                p@
            },
        },
{
    match parent {
        None => None,
        Some(p) => {
            if chars_of(p.as_str()).len() == 0 {
                Some(owned("/"))
            } else {
                Some(p)
            }
        },
    }
}

/// The directory above `cwd`, if there is one; never empty. There is none
/// above `/`; for a simple path it is the text before the last `/`, or `/`
/// when that is empty.
pub fn parent_dir(cwd: &str) -> (res: Option<String>)
    ensures
        res matches Some(p) ==> p@.len() > 0,
        cwd@ == "/"@ ==> res is None,
        simple_path(cwd@) ==> res is Some && res.unwrap()@ == (if simple_parent(cwd@).len() == 0 {
            "/"@
        } else {
            simple_parent(cwd@)
        }),
{
    let r = parent_or_root(std_path_parent(cwd));
    proof {
        reveal_strlit("/");
    }
    r
}

/// The name shown for a file whose path has the file name `name`:
/// the name itself, or `file` when the path has none.
pub fn name_or_default(name: Option<String>) -> (res: String)
    ensures
        res@ == match name {
            Some(n) => n@,
            None => "file"@,
        },
{
    match name {
        Some(n) => n,
        None => owned("file"),
    }
}

/// A path whose text after the last `/` is its file name on every
/// platform: it splits at `/` alone and ends in an ordinary name.
pub open spec fn named_path(p: Seq<char>) -> bool {
    slash_path(p) && plain_component(last_segment(p))
}

/// The file name of an absolute path, or `file` when it has none. When the
/// text after the last `/` is an ordinary name, it is that name.
pub fn filename_of(path: &str) -> (res: String)
    ensures
        named_path(path@) ==> res@ == last_segment(path@),
{
    name_or_default(std_path_file_name(path))
}

/// One queued copy between the panels.
#[derive(Debug, Clone)]
pub struct Transfer {
    /// The path copied.
    pub src: String,
    /// The path written.
    pub dst: String,
    pub transfer_id: TransferId,
    /// Local to remote when true, remote to local when false.
    pub upload: bool,
}

/// The transfers that pasting the clipboard starts, with the name shown in
/// the progress popup.
#[derive(Debug, Clone)]
pub struct PastePlan {
    pub transfers: Vec<Transfer>,
    pub popup_name: String,
}

/// Why pasting `clipboard` into `dst` is refused, if it is.
pub open spec fn paste_error(clipboard: Option<FmClipboard>, dst: FmPanel) -> Option<Seq<char>> {
    match clipboard {
        None => Some("Nothing in clipboard."@),
        Some(c) => if c.source_panel == dst {
            Some("Cannot paste to the same panel."@)
        } else if c.paths.len() == 0 {
            Some("Clipboard is empty."@)
        } else {
            None
        },
    }
}

/// The progress popup title for `count` files whose first has the name `first`.
pub open spec fn popup_title(first: Seq<char>, count: nat) -> Seq<char> {
    if count > 1 {
        first + "  (+"@ + decimal((count - 1) as nat) + " more)"@
    } else {
        first
    }
}

/// Plans the paste of `clipboard` into the panel `dst` showing `dst_cwd`,
/// numbering transfers from `first_tid`; `names[i]` is the file name of the
/// `i`-th clipboard path.
///
/// # Errors
/// A message when the clipboard is empty or comes from the same panel.
pub fn plan_paste_named(
    clipboard: &Option<FmClipboard>,
    dst: FmPanel,
    dst_cwd: &str,
    first_tid: TransferId,
    names: &[String],
) -> (res: Result<PastePlan, String>)
    requires
        clipboard matches Some(c) ==> names.len() == c.paths.len() && first_tid + c.paths.len() <= u64::MAX,
    ensures
        res is Err <==> paste_error(*clipboard, dst) is Some,
        res matches Err(e) ==> paste_error(*clipboard, dst) == Some(e@),
        res matches Ok(plan) ==> {
            let c = clipboard->0;
            &&& plan.transfers.len() == c.paths.len()
            &&& plan.popup_name@ == popup_title(names@[0]@, c.paths.len() as nat)
            &&& forall|i: int|
                0 <= i < c.paths.len() ==> {
                    let t = #[trigger] plan.transfers@[i];
                    &&& t.src@ == c.paths@[i]@
                    &&& t.dst@ == child_path(dst_cwd@, names@[i]@)
                    &&& t.transfer_id == first_tid + i
                    &&& t.upload == (c.source_panel == FmPanel::Local)
                }
        },
{
    let c = match clipboard {
        None => {
            return Err(owned("Nothing in clipboard."));
        },
        Some(c) => c,
    };
    if c.source_panel == dst {
        return Err(owned("Cannot paste to the same panel."));
    }
    if c.paths.len() == 0 {
        return Err(owned("Clipboard is empty."));
    }
    let count = c.paths.len();
    let mut title = chars_of(names[0].as_str());
    if count > 1 {
        append_str(&mut title, "  (+");
        let more = decimal_chars((count - 1) as u64);
        append_chars(&mut title, &more);
        append_str(&mut title, " more)");
    }
    let upload = c.source_panel == FmPanel::Local;
    let mut transfers: Vec<Transfer> = Vec::new();
    let mut i: usize = 0;
    while i < count
        invariant
            i <= count,
            count == c.paths.len(),
            names.len() == count,
            first_tid + count <= u64::MAX,
            upload == (c.source_panel == FmPanel::Local),
            transfers.len() == i,
            forall|j: int|
                0 <= j < i ==> {
                    let t = #[trigger] transfers@[j];
                    &&& t.src@ == c.paths@[j]@
                    &&& t.dst@ == child_path(dst_cwd@, names@[j]@)
                    &&& t.transfer_id == first_tid + j
                    &&& t.upload == upload
                },
        decreases count - i,
    {
        let t = Transfer {
            src: owned(c.paths[i].as_str()),
            dst: join_path(dst_cwd, names[i].as_str()),
            transfer_id: first_tid + i as u64,
            upload,
        };
        transfers.push(t);
        i = i + 1;
    }
    Ok(PastePlan { transfers, popup_name: string_of(&title) })
}

/// `ts` copies the clipboard `c` into `cwd`: transfer `i` copies
/// `paths[i]` to that file's name in `cwd`, numbered `first + i`, uploading
/// when the clipboard comes from the local panel; `title` names the first
/// file and how many more follow. Names are stated for paths whose last
/// part is an ordinary file name.
pub open spec fn transfers_planned(c: FmClipboard, cwd: Seq<char>, first: u64, ts: Seq<Transfer>, title: Seq<char>) -> bool {
    &&& ts.len() == c.paths.len()
    &&& named_path(c.paths@[0]@) ==> title == popup_title(last_segment(c.paths@[0]@), c.paths.len() as nat)
    &&& forall|i: int|
        0 <= i < c.paths.len() ==> {
            let t = #[trigger] ts[i];
            &&& t.src@ == c.paths@[i]@
            &&& t.transfer_id == first + i
            &&& t.upload == (c.source_panel == FmPanel::Local)
            &&& named_path(c.paths@[i]@) ==> t.dst@ == child_path(cwd, last_segment(c.paths@[i]@))
        }
}

/// Plans the paste of `clipboard` into the panel `dst` showing `dst_cwd`,
/// numbering transfers from `first_tid` and naming each copy after the file
/// name of its source path: each transfer copies `paths[i]` to that name in
/// `dst_cwd`, as transfer `first_tid + i`, uploading when the clipboard
/// comes from the local panel; the popup names the first file.
///
/// # Errors
/// A message when the clipboard is empty or comes from the same panel.
pub fn plan_paste(clipboard: &Option<FmClipboard>, dst: FmPanel, dst_cwd: &str, first_tid: TransferId) -> (res: Result<
    PastePlan,
    String,
>)
    requires
        clipboard matches Some(c) ==> first_tid + c.paths.len() <= u64::MAX,
    ensures
        res is Err <==> paste_error(*clipboard, dst) is Some,
        res matches Err(e) ==> paste_error(*clipboard, dst) == Some(e@),
        res matches Ok(plan) ==> transfers_planned(clipboard->0, dst_cwd@, first_tid, plan.transfers@, plan.popup_name@),
{
    let mut names: Vec<String> = Vec::new();
    if let Some(c) = clipboard {
        let mut i: usize = 0;
        while i < c.paths.len()
            invariant
                i <= c.paths.len(),
                names.len() == i,
                forall|j: int|
                    0 <= j < i ==> named_path(c.paths@[j]@) ==> (#[trigger] names@[j])@ == last_segment(
                        c.paths@[j]@,
                    ),
            decreases c.paths.len() - i,
        {
            names.push(filename_of(c.paths[i].as_str()));
            i = i + 1;
        }
    }
    plan_paste_named(clipboard, dst, dst_cwd, first_tid, &names)
}

} // verus!
