use vstd::prelude::*;
use vstd::multiset::Multiset;
use crate::clipboard::{Clipboard, ClipboardMode};
use crate::settings::{scheme_named, ColorScheme};
use crate::config::Config;
use crate::search::{search_result, SearchEngine, SearchMode};
use crate::task::{appended, copy_string_vec, lemma_appended_push, KindView, TaskKind, TaskManager};
use crate::text::{
    debug_of, debug_text, digits_of, file_name, file_name_of, has_prefix, in_base, join_path,
    joined, octal_of, parse_octal, renamed, same_text, with_file_name,
};

verus! {

/// One item of a directory listing.
#[derive(Debug)]
pub struct DirEntry {
    pub name: String,
    pub path: String,
    pub is_dir: bool,
}

impl DirEntry {
    /// An equal, independent copy.
    pub fn duplicate(&self) -> (r: DirEntry)
        ensures
            r == *self,
    {
        DirEntry { name: self.name.clone(), path: self.path.clone(), is_dir: self.is_dir }
    }
}

/// Which block of the screen has the keyboard.
#[derive(Debug, Clone, Copy, PartialEq, Eq, Structural)]
pub enum FocusBlock {
    Middle,
    Xdg,
    Bookmarks,
    Disks,
}

/// What keystrokes currently feed.
#[derive(Debug, Clone, Copy, PartialEq, Eq, Structural)]
pub enum InputMode {
    Normal,
    Create,
    Rename,
    Chmod,
    Chown,
    Command,
    Settings,
    Archive,
}

/// What a create dialog makes.
#[derive(Debug, Clone, Copy, PartialEq, Eq, Structural)]
pub enum CreateFileType {
    File,
    Directory,
}

/// The action a confirmation dialog is asking about.
#[derive(Debug, Clone, Copy, PartialEq, Eq, Structural)]
pub enum ActionToConfirm {
    Delete,
    Paste,
    Unmount,
    RemoveBookmark,
}

/// One item shown in a directory preview.
#[derive(Debug)]
pub struct PreviewEntry {
    pub name: String,
    pub is_dir: bool,
}

/// What the preview pane shows for the entry under the cursor.
#[derive(Debug)]
pub enum PreviewContent {
    File(String),
    Directory(Vec<PreviewEntry>),
    TooLarge(String),
    Error(String),
    Binary,
}

/// The set of paths a list of strings holds.
pub open spec fn path_set(v: Seq<String>) -> Set<Seq<char>> {
    Set::new(|p: Seq<char>| exists|i: int| 0 <= i < v.len() && #[trigger] v[i]@ == p)
}

/// One browsing tab: a directory, its listing, the part of it a filter
/// keeps, a cursor into that part, and the marked paths.
#[derive(Debug)]
pub struct TabState {
    pub id: usize,
    pub current_dir: String,
    pub entries: Vec<DirEntry>,
    pub filtered_entries: Vec<DirEntry>,
    pub cursor: usize,
    pub preview_content: Option<PreviewContent>,
    pub preview_scroll: (u16, u16),
    pub selected_entries: Vec<String>,
}

/// The last valid cursor position for a list of `len` items (0 when empty).
pub open spec fn last_position(len: nat) -> nat {
    if len == 0 {
        0
    } else {
        (len - 1) as nat
    }
}

/// The parent directory of a path, as std's path handling gives it; none for
/// a root or an empty path.
pub uninterp spec fn parent_of(p: Seq<char>) -> Option<Seq<char>>;

/// Relies on std::path::Path::parent: the result depends on the path alone.
#[verifier::external_body]
fn parent_dir(p: &str) -> (r: Option<String>)
    ensures
        match r {
            Some(q) => parent_of(p@) == Some(q@),
            None => parent_of(p@) is None,
        },
{
    match std::path::Path::new(p).parent() {
        Some(q) => Some(q.to_string_lossy().into_owned()),
        None => None,
    }
}

proof fn lemma_path_set_push(v: Seq<String>, s: String)
    ensures
        path_set(v.push(s)) == path_set(v).insert(s@),
{
    let w = v.push(s);
    assert(w[v.len() as int] == s);
    assert forall|q: Seq<char>| path_set(w).contains(q) implies path_set(v).insert(s@).contains(
        q,
    ) by {
        let j = choose|j: int| 0 <= j < w.len() && #[trigger] w[j]@ == q;
        if j < v.len() {
            assert(w[j] == v[j]);
        }
    }
    assert forall|q: Seq<char>| path_set(v).insert(s@).contains(q) implies path_set(w).contains(
        q,
    ) by {
        if q != s@ {
            let j = choose|j: int| 0 <= j < v.len() && #[trigger] v[j]@ == q;
            assert(w[j] == v[j]);
        }
    }
    assert(path_set(w) =~= path_set(v).insert(s@));
}

fn copy_entries(v: &Vec<DirEntry>) -> (r: Vec<DirEntry>)
    ensures
        r@ == v@,
{
    let mut r: Vec<DirEntry> = Vec::new();
    let mut i: usize = 0;
    while i < v.len()
        invariant
            i <= v@.len(),
            r@ == v@.subrange(0, i as int),
        decreases v@.len() - i,
    {
        r.push(v[i].duplicate());
        i += 1;
        assert(r@ =~= v@.subrange(0, i as int));
    }
    assert(r@ =~= v@);
    r
}

/// `v` without the strings equal to `p`.
fn without_path(v: &Vec<String>, p: &String) -> (r: Vec<String>)
    ensures
        path_set(r@) == path_set(v@).remove(p@),
{
    let mut r: Vec<String> = Vec::new();
    let mut i: usize = 0;
    while i < v.len()
        invariant
            i <= v@.len(),
            path_set(r@) == path_set(v@.subrange(0, i as int)).remove(p@),
        decreases v@.len() - i,
    {
        let ghost before = r@;
        let ghost prefix = v@.subrange(0, i as int);
        let ghost next = v@.subrange(0, i + 1);
        if v[i] != *p {
            r.push(v[i].clone());
            proof {
                lemma_path_set_push(before, v@[i as int]);
            }
        }
        assert(next =~= prefix.push(v@[i as int]));
        proof {
            lemma_path_set_push(prefix, v@[i as int]);
        }
        assert(path_set(r@) =~= path_set(next).remove(p@));
        i += 1;
    }
    assert(v@.subrange(0, i as int) =~= v@);
    r
}

/// Whether `p` is among `v`.
fn holds_path(v: &Vec<String>, p: &String) -> (r: bool)
    ensures
        r == path_set(v@).contains(p@),
{
    let mut i: usize = 0;
    while i < v.len()
        invariant
            i <= v@.len(),
            forall|j: int| 0 <= j < i ==> #[trigger] v@[j]@ != p@,
        decreases v@.len() - i,
    {
        if v[i] == *p {
            assert(v@[i as int]@ == p@);
            return true;
        }
        i += 1;
    }
    false
}

/// `a` comes before `b` in character order (a proper prefix first).
pub open spec fn lex_lt(a: Seq<char>, b: Seq<char>) -> bool
    decreases a.len(),
{
    if a.len() == 0 {
        b.len() > 0
    } else if b.len() == 0 {
        false
    } else if a[0] != b[0] {
        (a[0] as u32) < (b[0] as u32)
    } else {
        lex_lt(a.drop_first(), b.drop_first())
    }
}

proof fn lemma_lex_lt_transitive(a: Seq<char>, b: Seq<char>, c: Seq<char>)
    requires
        lex_lt(a, b),
        lex_lt(b, c),
    ensures
        lex_lt(a, c),
    decreases a.len(),
{
    if a.len() > 0 && b.len() > 0 && c.len() > 0 && a[0] == b[0] && b[0] == c[0] {
        lemma_lex_lt_transitive(a.drop_first(), b.drop_first(), c.drop_first());
    }
}

proof fn lemma_lex_lt_irreflexive(a: Seq<char>)
    ensures
        !lex_lt(a, a),
    decreases a.len(),
{
    if a.len() > 0 {
        lemma_lex_lt_irreflexive(a.drop_first());
    }
}

/// Listing order: directories before files, then by name.
pub open spec fn entry_lt(a: DirEntry, b: DirEntry) -> bool {
    if a.is_dir != b.is_dir {
        a.is_dir
    } else {
        lex_lt(a.name@, b.name@)
    }
}

/// No entry of `s` comes after a later one.
pub open spec fn in_listing_order(s: Seq<DirEntry>) -> bool {
    forall|i: int, j: int| 0 <= i < j < s.len() ==> !entry_lt(#[trigger] s[j], #[trigger] s[i])
}

/// A dot file, hidden unless asked for.
pub open spec fn is_hidden(name: Seq<char>) -> bool {
    name.len() > 0 && name[0] == '.'
}

/// The entries of `s` that are shown, in order.
pub open spec fn shown_entries(s: Seq<DirEntry>, show_hidden: bool) -> Seq<DirEntry>
    decreases s.len(),
{
    if s.len() == 0 {
        Seq::empty()
    } else {
        let rest = shown_entries(s.drop_last(), show_hidden);
        if show_hidden || !is_hidden(s.last().name@) {
            rest.push(s.last())
        } else {
            rest
        }
    }
}

fn name_lt(a: &str, b: &str) -> (r: bool)
    ensures
        r == lex_lt(a@, b@),
{
    let n = a.unicode_len();
    let m = b.unicode_len();
    let mut i: usize = 0;
    assert(a@.subrange(0, n as int) =~= a@);
    assert(b@.subrange(0, m as int) =~= b@);
    while i < n && i < m
        invariant
            n == a@.len(),
            m == b@.len(),
            i <= n,
            i <= m,
            lex_lt(a@, b@) == lex_lt(a@.subrange(i as int, n as int), b@.subrange(i as int, m as int)),
        decreases n - i,
    {
        let x = a.get_char(i);
        let y = b.get_char(i);
        let ghost sa = a@.subrange(i as int, n as int);
        let ghost sb = b@.subrange(i as int, m as int);
        assert(sa[0] == x && sb[0] == y);
        if x != y {
            return (x as u32) < (y as u32);
        }
        assert(sa.drop_first() =~= a@.subrange(i + 1, n as int));
        assert(sb.drop_first() =~= b@.subrange(i + 1, m as int));
        i += 1;
    }
    i == n && i < m
}

fn entry_before(a: &DirEntry, b: &DirEntry) -> (r: bool)
    ensures
        r == entry_lt(*a, *b),
{
    if a.is_dir != b.is_dir {
        a.is_dir
    } else {
        name_lt(a.name.as_str(), b.name.as_str())
    }
}

proof fn lemma_entry_lt_transitive(a: DirEntry, b: DirEntry, c: DirEntry)
    requires
        entry_lt(a, b),
        entry_lt(b, c),
    ensures
        entry_lt(a, c),
{
    if a.is_dir == b.is_dir && b.is_dir == c.is_dir {
        lemma_lex_lt_transitive(a.name@, b.name@, c.name@);
    }
}

/// `listing` without hidden entries (unless `show_hidden`), in listing order.
fn order_listing(listing: Vec<DirEntry>, show_hidden: bool) -> (r: Vec<DirEntry>)
    ensures
        in_listing_order(r@),
        r@.to_multiset() == shown_entries(listing@, show_hidden).to_multiset(),
{
    broadcast use vstd::seq_lib::group_to_multiset_ensures, vstd::multiset::group_multiset_axioms;

    let mut r: Vec<DirEntry> = Vec::new();
    let mut rest = listing;
    let ghost all = rest@;
    let mut k: usize = 0;
    let n = rest.len();
    proof {
        assert(r@.to_multiset() =~= Multiset::<DirEntry>::empty());
        assert(shown_entries(all.subrange(0, 0), show_hidden) =~= Seq::<DirEntry>::empty());
        assert(Seq::<DirEntry>::empty().to_multiset() =~= Multiset::<DirEntry>::empty());
    }
    while k < n
        invariant
            n == all.len(),
            rest@ == all,
            k <= n,
            in_listing_order(r@),
            r@.to_multiset() == shown_entries(all.subrange(0, k as int), show_hidden).to_multiset(),
        decreases n - k,
    {
        assert(all.subrange(0, k + 1).drop_last() =~= all.subrange(0, k as int));
        assert(all.subrange(0, k + 1).last() == all[k as int]);
        let e = rest[k].duplicate();
        let shown = show_hidden || !(e.name.unicode_len() > 0 && e.name.as_str().get_char(0) == '.');
        if shown {
            let mut pos: usize = 0;
            while pos < r.len() && !entry_before(&e, &r[pos])
                invariant
                    pos <= r@.len(),
                    forall|i: int| 0 <= i < pos ==> !entry_lt(e, #[trigger] r@[i]),
                decreases r@.len() - pos,
            {
                pos += 1;
            }
            let ghost old_r = r@;
            r.insert(pos, e);
            assert(r@ == old_r.insert(pos as int, e));
            proof {
                vstd::seq_lib::to_multiset_insert(old_r, pos as int, e);
                vstd::seq_lib::to_multiset_build(
                    shown_entries(all.subrange(0, k as int), show_hidden),
                    e,
                );
            }
            assert forall|i: int, j: int| 0 <= i < j < r@.len() implies !entry_lt(
                #[trigger] r@[j],
                #[trigger] r@[i],
            ) by {
                if i < pos && j == pos {
                    assert(old_r[i] == r@[i]);
                    assert(!entry_lt(e, old_r[i]));
                } else if i == pos && j > pos {
                    assert(entry_lt(e, old_r[pos as int]));
                    assert(old_r[j - 1] == r@[j]);
                    if entry_lt(r@[j], e) {
                        lemma_entry_lt_transitive(r@[j], e, old_r[pos as int]);
                        if j - 1 > pos {
                            assert(!entry_lt(old_r[j - 1], old_r[pos as int]));
                        } else {
                            lemma_lex_lt_irreflexive(old_r[pos as int].name@);
                        }
                    }
                } else if i < pos && j > pos {
                    assert(old_r[i] == r@[i]);
                    assert(old_r[j - 1] == r@[j]);
                } else if j < pos {
                    assert(old_r[i] == r@[i]);
                    assert(old_r[j] == r@[j]);
                } else {
                    assert(old_r[i - 1] == r@[i]);
                    assert(old_r[j - 1] == r@[j]);
                }
            }
        }
        k += 1;
    }
    assert(all.subrange(0, n as int) =~= all);
    r
}

/// The largest file that is previewed, in bytes.
pub const MAX_PREVIEW_SIZE: u64 = 1024 * 1024;

/// A size in bytes as humansize writes it with binary units.
pub uninterp spec fn binary_size_of(n: u64) -> Seq<char>;

/// Relies on humansize::format_size with the BINARY options: the text
/// depends on the number alone.
#[verifier::external_body]
fn binary_size(n: u64) -> (r: String)
    ensures
        r@ == binary_size_of(n),
{
    humansize::format_size(n, humansize::BINARY)
}

/// Relies on String::from_utf8: the text when the bytes are valid UTF-8,
/// none otherwise.
#[verifier::external_body]
fn utf8_text(bytes: Vec<u8>) -> (r: Option<String>)
    ensures
        match r {
            Some(t) => vstd::utf8::valid_utf8(bytes@) && t@ == vstd::utf8::decode_utf8(bytes@),
            None => !vstd::utf8::valid_utf8(bytes@),
        },
{
    match String::from_utf8(bytes) {
        Ok(t) => Some(t),
        Err(_) => None,
    }
}

/// The preview of a file of `size` bytes, if it is too large to read.
pub fn large_file_preview(size: u64) -> (r: Option<PreviewContent>)
    ensures
        size <= MAX_PREVIEW_SIZE ==> r is None,
        size > MAX_PREVIEW_SIZE ==> r is Some && r->Some_0 is TooLarge
            && r->Some_0->TooLarge_0@ == binary_size_of(size),
{
    if size > MAX_PREVIEW_SIZE {
        Some(PreviewContent::TooLarge(binary_size(size)))
    } else {
        None
    }
}

/// The preview of a file read whole: its text when it is UTF-8, else
/// marked binary; a read error is shown.
pub fn read_file_preview(content: Result<Vec<u8>, String>) -> (r: PreviewContent)
    ensures
        match content {
            Ok(b) => if vstd::utf8::valid_utf8(b@) {
                r is File && r->File_0@ == vstd::utf8::decode_utf8(b@)
            } else {
                r is Binary
            },
            Err(e) => r is Error && r->Error_0@ == "Error reading file:\n"@ + e@,
        },
{
    match content {
        Ok(b) => match utf8_text(b) {
            Some(t) => PreviewContent::File(t),
            None => PreviewContent::Binary,
        },
        Err(e) => PreviewContent::Error(String::from_str("Error reading file:\n").concat(e.as_str())),
    }
}

/// The preview of a file that could not be opened.
pub fn open_error_preview(e: String) -> (r: PreviewContent)
    ensures
        r is Error && r->Error_0@ == "Error opening file:\n"@ + e@,
{
    PreviewContent::Error(String::from_str("Error opening file:\n").concat(e.as_str()))
}

/// The preview of a directory: its items (hidden ones too) in listing
/// order, or the error that reading it gave.
pub fn directory_preview(listing: Result<Vec<DirEntry>, String>) -> (r: PreviewContent)
    ensures
        match listing {
            Ok(l) => r is Directory && exists|o: Seq<DirEntry>|
                {
                    &&& in_listing_order(o)
                    &&& o.to_multiset() == shown_entries(l@, true).to_multiset()
                    &&& r->Directory_0@.len() == o.len()
                    &&& forall|i: int|
                        0 <= i < o.len() ==> #[trigger] r->Directory_0@[i].name == o[i].name
                            && r->Directory_0@[i].is_dir == o[i].is_dir
                },
            Err(e) => r is Error && r->Error_0@ == "Error reading directory:\n"@ + e@,
        },
{
    match listing {
        Ok(l) => {
            let ordered = order_listing(l, true);
            let mut v: Vec<PreviewEntry> = Vec::new();
            let mut i: usize = 0;
            while i < ordered.len()
                invariant
                    i <= ordered@.len(),
                    v@.len() == i,
                    forall|j: int|
                        0 <= j < i ==> #[trigger] v@[j].name == ordered@[j].name && v@[j].is_dir
                            == ordered@[j].is_dir,
                decreases ordered@.len() - i,
            {
                let ghost before = v@;
                let item = PreviewEntry { name: ordered[i].name.clone(), is_dir: ordered[i].is_dir };
                v.push(item);
                assert forall|j: int| 0 <= j <= i implies #[trigger] v@[j].name == ordered@[j].name
                    && v@[j].is_dir == ordered@[j].is_dir by {
                    if j < i {
                        assert(v@[j] == before[j]);
                    }
                }
                i += 1;
            }
            PreviewContent::Directory(v)
        },
        Err(e) => PreviewContent::Error(
            String::from_str("Error reading directory:\n").concat(e.as_str()),
        ),
    }
}

impl TabState {
    /// A tab on `current_dir` with nothing listed, selected or previewed.
    pub fn new(id: usize, current_dir: String) -> (r: TabState)
        ensures
            r.id == id,
            r.current_dir == current_dir,
            r.entries@.len() == 0,
            r.filtered_entries@.len() == 0,
            r.cursor == 0,
            r.preview_content is None,
            r.preview_scroll == (0u16, 0u16),
            r.selected_entries@.len() == 0,
    {
        TabState {
            id,
            current_dir,
            entries: Vec::new(),
            filtered_entries: Vec::new(),
            cursor: 0,
            preview_content: None,
            preview_scroll: (0, 0),
            selected_entries: Vec::new(),
        }
    }

    /// Takes a freshly read listing of the directory: dot files are left out
    /// unless `show_hidden`, the rest are put in listing order, the filter
    /// shows them all and the cursor goes to the top.
    pub fn update_entries(&mut self, listing: Vec<DirEntry>, show_hidden: bool)
        ensures
            in_listing_order(final(self).entries@),
            final(self).entries@.to_multiset() == shown_entries(listing@, show_hidden).to_multiset(),
            final(self).filtered_entries@ == final(self).entries@,
            final(self).cursor == 0,
            final(self).current_dir == old(self).current_dir,
            final(self).selected_entries == old(self).selected_entries,
            final(self).id == old(self).id,
    {
        self.entries = order_listing(listing, show_hidden);
        self.filtered_entries = copy_entries(&self.entries);
        self.cursor = 0;
    }

    /// The entry the preview is of: the one at the cursor's position in the
    /// full listing, if there is one.
    pub fn preview_target(&self) -> (r: Option<DirEntry>)
        ensures
            (self.cursor as int) < self.entries@.len() ==> r == Some(self.entries@[self.cursor as int]),
            (self.cursor as int) >= self.entries@.len() ==> r is None,
    {
        if self.cursor < self.entries.len() {
            Some(self.entries[self.cursor].duplicate())
        } else {
            None
        }
    }

    /// Shows `content` in the preview pane, scrolled to the top.
    pub fn set_preview(&mut self, content: Option<PreviewContent>)
        ensures
            *final(self) == (TabState {
                preview_content: content,
                preview_scroll: (0u16, 0u16),
                ..*old(self)
            }),
    {
        self.preview_content = content;
        self.preview_scroll = (0, 0);
    }

    /// Moves to `new_path` and drops the marks; the listing is read afresh
    /// by the caller.
    pub fn set_current_dir(&mut self, new_path: String)
        ensures
            final(self).current_dir == new_path,
            final(self).selected_entries@.len() == 0,
            final(self).id == old(self).id,
            final(self).entries == old(self).entries,
            final(self).filtered_entries == old(self).filtered_entries,
            final(self).cursor == old(self).cursor,
    {
        self.current_dir = new_path;
        self.selected_entries.clear();
    }

    /// One step down the filtered list, stopping at its last item.
    pub fn move_cursor_down(&mut self, _show_hidden: bool)
        ensures
            final(self).cursor == if (old(self).cursor as nat) < last_position(
                old(self).filtered_entries@.len(),
            ) {
                old(self).cursor + 1
            } else {
                old(self).cursor as int
            },
            *final(self) == (TabState { cursor: final(self).cursor, ..*old(self) }),
    {
        let max = self.filtered_entries.len().saturating_sub(1);
        if self.cursor < max {
            self.cursor = self.cursor + 1;
        }
    }

    /// One step up, stopping at the top.
    pub fn move_cursor_up(&mut self, _show_hidden: bool)
        ensures
            final(self).cursor == if old(self).cursor > 0 {
                old(self).cursor - 1
            } else {
                0
            },
            *final(self) == (TabState { cursor: final(self).cursor, ..*old(self) }),
    {
        if self.cursor > 0 {
            self.cursor = self.cursor - 1;
        }
    }

    /// Enters the directory under the cursor, dropping the marks. Returns
    /// whether it moved (the caller then reads the new listing); on a file or
    /// an empty list nothing changes.
    pub fn enter_directory(&mut self) -> (r: bool)
        ensures
            r == ((old(self).cursor as int) < old(self).filtered_entries@.len()
                && old(self).filtered_entries@[old(self).cursor as int].is_dir),
            r ==> final(self).current_dir == old(self).filtered_entries@[old(self).cursor as int].path,
            r ==> final(self).selected_entries@.len() == 0,
            r ==> final(self).cursor == old(self).cursor,
            !r ==> *final(self) == *old(self),
    {
        if self.cursor < self.filtered_entries.len() && self.filtered_entries[self.cursor].is_dir {
            let target = self.filtered_entries[self.cursor].path.clone();
            self.current_dir = target;
            self.selected_entries.clear();
            true
        } else {
            false
        }
    }

    /// Goes to the parent directory, dropping the marks. Returns whether it
    /// moved; at a root nothing changes.
    pub fn leave_directory(&mut self) -> (r: bool)
        ensures
            r == (parent_of(old(self).current_dir@) is Some),
            r ==> final(self).current_dir@ == parent_of(old(self).current_dir@)->Some_0,
            r ==> final(self).selected_entries@.len() == 0,
            r ==> final(self).cursor == old(self).cursor,
            !r ==> *final(self) == *old(self),
    {
        match parent_dir(self.current_dir.as_str()) {
            Some(parent) => {
                self.current_dir = parent;
                self.selected_entries.clear();
                true
            },
            None => false,
        }
    }

    /// Narrows the list to the entries whose name holds `query`, ignoring
    /// case; an empty query shows every entry.
    pub fn update_filtered_entries(&mut self, query: &str)
        ensures
            final(self).filtered_entries@ == if query@.len() == 0 {
                old(self).entries@
            } else {
                search_result(old(self).entries@, query@, SearchMode::Name)
            },
            final(self).entries == old(self).entries,
            final(self).cursor == old(self).cursor,
            final(self).current_dir == old(self).current_dir,
            final(self).selected_entries == old(self).selected_entries,
    {
        if query.is_empty() {
            self.filtered_entries = copy_entries(&self.entries);
        } else {
            self.filtered_entries = SearchEngine::search_entries(&self.entries, query, &SearchMode::Name);
        }
    }

    /// The path of the entry under the cursor, if the cursor is on one.
    pub fn get_selected_entry_path(&self) -> (r: Option<String>)
        ensures
            (self.cursor as int) < self.filtered_entries@.len() ==> r == Some(
                self.filtered_entries@[self.cursor as int].path,
            ),
            (self.cursor as int) >= self.filtered_entries@.len() ==> r is None,
    {
        if self.cursor < self.filtered_entries.len() {
            Some(self.filtered_entries[self.cursor].path.clone())
        } else {
            None
        }
    }

    /// Marks the entry under the cursor, or unmarks it if it was marked.
    pub fn toggle_selection(&mut self)
        ensures
            (old(self).cursor as int) < old(self).filtered_entries@.len() ==> {
                let p = old(self).filtered_entries@[old(self).cursor as int].path@;
                path_set(final(self).selected_entries@) == if path_set(
                    old(self).selected_entries@,
                ).contains(p) {
                    path_set(old(self).selected_entries@).remove(p)
                } else {
                    path_set(old(self).selected_entries@).insert(p)
                }
            },
            (old(self).cursor as int) >= old(self).filtered_entries@.len() ==> path_set(
                final(self).selected_entries@,
            ) == path_set(old(self).selected_entries@),
            final(self).cursor == old(self).cursor,
            final(self).filtered_entries == old(self).filtered_entries,
            final(self).entries == old(self).entries,
            final(self).current_dir == old(self).current_dir,
    {
        if self.cursor < self.filtered_entries.len() {
            let path = self.filtered_entries[self.cursor].path.clone();
            if holds_path(&self.selected_entries, &path) {
                self.selected_entries = without_path(&self.selected_entries, &path);
            } else {
                let ghost before = self.selected_entries@;
                self.selected_entries.push(path);
                proof {
                    lemma_path_set_push(before, path);
                }
            }
        }
    }

    /// Marks or unmarks the entry under the cursor without moving it; the
    /// same as `toggle_selection`.
    pub fn select_current(&mut self)
        ensures
            (old(self).cursor as int) < old(self).filtered_entries@.len() ==> {
                let p = old(self).filtered_entries@[old(self).cursor as int].path@;
                path_set(final(self).selected_entries@) == if path_set(
                    old(self).selected_entries@,
                ).contains(p) {
                    path_set(old(self).selected_entries@).remove(p)
                } else {
                    path_set(old(self).selected_entries@).insert(p)
                }
            },
            (old(self).cursor as int) >= old(self).filtered_entries@.len() ==> path_set(
                final(self).selected_entries@,
            ) == path_set(old(self).selected_entries@),
            final(self).cursor == old(self).cursor,
            final(self).filtered_entries == old(self).filtered_entries,
            final(self).entries == old(self).entries,
            final(self).current_dir == old(self).current_dir,
    {
        self.toggle_selection();
    }
}

/// The whole interface state: tabs, the side panes, dialogs, the clipboard
/// and the task registry. Bookmarks and well-known directories are
/// (name, path) pairs; mounts are the mount points shown.
#[derive(Debug)]
pub struct AppState {
    pub tabs: Vec<TabState>,
    pub active_tab_index: usize,
    pub show_tabs: bool,
    pub task_manager: TaskManager,
    pub clipboard: Clipboard,
    pub show_terminal: bool,
    pub show_hidden_files: bool,
    pub focus: FocusBlock,
    pub xdg_dirs: Vec<(String, String)>,
    pub xdg_cursor: usize,
    pub bookmarks: Vec<(String, String)>,
    pub bookmarks_cursor: usize,
    pub mounts: Vec<String>,
    pub disks_cursor: usize,
    pub config: Config,
    pub show_confirmation: bool,
    pub confirmation_message: String,
    pub path_to_delete: Option<String>,
    pub action_to_confirm: Option<ActionToConfirm>,
    pub input_mode: InputMode,
    pub input_buffer: String,
    pub input_dialog_prompt: String,
    pub show_input_dialog: bool,
    pub create_file_type: Option<CreateFileType>,
    pub path_to_rename: Option<String>,
    pub pending_paste: Option<(Clipboard, String)>,
    pub notification: Option<String>,
    pub input_dialog_error: Option<String>,
    pub show_info_panel: bool,
    pub chmod_permissions: String,
    pub chown_owner: String,
    pub show_search_dialog: bool,
    pub search_query: String,
    pub search_mode: SearchMode,
    pub search_results: Vec<DirEntry>,
    pub search_cursor: usize,
    pub archive_format: String,
    pub plugins: Vec<crate::plugin::Plugin>,
}

/// The most tabs that can be open at once.
pub const MAX_TABS: usize = 10;

/// The file system types of network mounts that the disks pane lists.
pub open spec fn listed_fs_type(t: Seq<char>) -> bool {
    t == "davfs"@ || t == "davfs2"@ || t == "fuse.sshfs"@ || t == "sshfs"@
}

/// Whether the disks pane lists a mount: a network file system, or anything
/// mounted under the usual removable-media directories.
pub fn keeps_mount(fs_type: &str, dest: &str) -> (r: bool)
    ensures
        r == (listed_fs_type(fs_type@) || has_prefix(dest@, "/run/media/"@) || has_prefix(
            dest@,
            "/media/"@,
        )),
{
    crate::text::same_text(fs_type, "davfs") || crate::text::same_text(fs_type, "davfs2")
        || crate::text::same_text(fs_type, "fuse.sshfs") || crate::text::same_text(fs_type, "sshfs")
        || crate::text::starts_with(dest, "/run/media/") || crate::text::starts_with(dest, "/media/")
}

/// The position of the next focus block in the cycle middle, well-known
/// directories, bookmarks, disks.
pub open spec fn next_focus(f: FocusBlock) -> FocusBlock {
    match f {
        FocusBlock::Xdg => FocusBlock::Bookmarks,
        FocusBlock::Bookmarks => FocusBlock::Disks,
        FocusBlock::Disks => FocusBlock::Middle,
        FocusBlock::Middle => FocusBlock::Xdg,
    }
}

/// A cursor moved one step down a list of `len` items, stopping at the end.
pub open spec fn step_down(cursor: usize, len: nat) -> usize {
    if (cursor as nat) < last_position(len) {
        (cursor + 1) as usize
    } else {
        cursor
    }
}

/// A cursor moved one step up, stopping at the top.
pub open spec fn step_up(cursor: usize) -> usize {
    if cursor > 0 {
        (cursor - 1) as usize
    } else {
        cursor
    }
}

fn cursor_down(cursor: usize, len: usize) -> (r: usize)
    ensures
        r == step_down(cursor, len as nat),
{
    let max = len.saturating_sub(1);
    if cursor < max {
        cursor + 1
    } else {
        cursor
    }
}

fn cursor_up(cursor: usize) -> (r: usize)
    ensures
        r == step_up(cursor),
{
    if cursor > 0 {
        cursor - 1
    } else {
        cursor
    }
}

pub(crate) fn copy_pairs(v: &Vec<(String, String)>) -> (r: Vec<(String, String)>)
    ensures
        r@ == v@,
{
    let mut r: Vec<(String, String)> = Vec::new();
    let mut i: usize = 0;
    while i < v.len()
        invariant
            i <= v@.len(),
            r@ == v@.subrange(0, i as int),
        decreases v@.len() - i,
    {
        r.push((v[i].0.clone(), v[i].1.clone()));
        i += 1;
        assert(r@ =~= v@.subrange(0, i as int));
    }
    assert(r@ =~= v@);
    r
}

/// The paths an action on tab `t` applies to: the marked ones if any, else
/// the entry under the cursor, else none.
pub open spec fn targets_of(t: TabState) -> Seq<String> {
    if t.selected_entries@.len() > 0 {
        t.selected_entries@
    } else if (t.cursor as int) < t.filtered_entries@.len() {
        seq![t.filtered_entries@[t.cursor as int].path]
    } else {
        Seq::empty()
    }
}

/// The directory the focused side pane points at, if any.
pub open spec fn left_pane_target(s: AppState) -> Option<String> {
    match s.focus {
        FocusBlock::Xdg => if (s.xdg_cursor as int) < s.xdg_dirs@.len() {
            Some(s.xdg_dirs@[s.xdg_cursor as int].1)
        } else {
            None
        },
        FocusBlock::Bookmarks => if (s.bookmarks_cursor as int) < s.bookmarks@.len() {
            Some(s.bookmarks@[s.bookmarks_cursor as int].1)
        } else {
            None
        },
        FocusBlock::Disks => if (s.disks_cursor as int) < s.mounts@.len() {
            Some(s.mounts@[s.disks_cursor as int])
        } else {
            None
        },
        FocusBlock::Middle => None,
    }
}

/// The first position in `v` of an entry with path `p`.
fn position_of_path(v: &Vec<DirEntry>, p: &String) -> (r: Option<usize>)
    ensures
        match r {
            Some(i) => i < v@.len() && v@[i as int].path@ == p@ && forall|j: int|
                0 <= j < i ==> #[trigger] v@[j].path@ != p@,
            None => forall|j: int| 0 <= j < v@.len() ==> #[trigger] v@[j].path@ != p@,
        },
{
    let mut i: usize = 0;
    while i < v.len()
        invariant
            i <= v@.len(),
            forall|j: int| 0 <= j < i ==> #[trigger] v@[j].path@ != p@,
        decreases v@.len() - i,
    {
        if v[i].path == *p {
            return Some(i);
        }
        i += 1;
    }
    None
}

/// What a path is called in messages: its last component, or the whole
/// path when it has none.
pub open spec fn name_or_path(p: Seq<char>) -> Seq<char> {
    match file_name_of(p) {
        Some(n) => n,
        None => p,
    }
}

fn display_name(p: &String) -> (r: String)
    ensures
        r@ == name_or_path(p@),
{
    match file_name(p.as_str()) {
        Some(n) => n,
        None => p.clone(),
    }
}

/// One deletion per path.
pub open spec fn delete_requests(paths: Seq<String>) -> Seq<(KindView, Seq<char>)> {
    paths.map_values(
        |p: String| (KindView::Delete { path: p@ }, "Delete "@ + debug_of(name_or_path(p@))),
    )
}

/// One permission change to `mode` per path.
pub open spec fn chmod_requests(paths: Seq<String>, mode: u32) -> Seq<(KindView, Seq<char>)> {
    paths.map_values(
        |p: String|
            (
                KindView::Chmod { path: p@, mode },
                "Chmod "@ + debug_of(name_or_path(p@)) + " to "@ + digits_of(mode as nat, 8),
            ),
    )
}

fn submit_deletes(tm: &mut TaskManager, paths: &Vec<String>)
    requires
        old(tm).wf(),
    ensures
        final(tm).wf(),
        appended(old(tm)@, final(tm)@, delete_requests(paths@)),
{
    let mut i: usize = 0;
    proof {
        reveal_strlit("Delete ");
        assert(old(tm)@.subrange(0, old(tm)@.len() as int) =~= old(tm)@);
    }
    while i < paths.len()
        invariant
            i <= paths@.len(),
            tm.wf(),
            appended(old(tm)@, tm@, delete_requests(paths@).subrange(0, i as int)),
        decreases paths@.len() - i,
    {
        let p = &paths[i];
        let description = String::from_str("Delete ").concat(debug_text(display_name(p).as_str()).as_str());
        let ghost before = tm@;
        let ghost request = delete_requests(paths@)[i as int];
        tm.add_task(TaskKind::Delete { path: p.clone() }, description);
        proof {
            lemma_appended_push(
                old(tm)@,
                before,
                delete_requests(paths@).subrange(0, i as int),
                tm@.last(),
                request,
            );
            assert(delete_requests(paths@).subrange(0, i + 1) =~= delete_requests(paths@).subrange(
                0,
                i as int,
            ).push(request));
        }
        i += 1;
    }
    assert(delete_requests(paths@).subrange(0, i as int) =~= delete_requests(paths@));
}

fn submit_chmods(tm: &mut TaskManager, paths: &Vec<String>, mode: u32)
    requires
        old(tm).wf(),
    ensures
        final(tm).wf(),
        appended(old(tm)@, final(tm)@, chmod_requests(paths@, mode)),
{
    let mut i: usize = 0;
    proof {
        reveal_strlit("Chmod ");
        reveal_strlit(" to ");
        assert(old(tm)@.subrange(0, old(tm)@.len() as int) =~= old(tm)@);
    }
    while i < paths.len()
        invariant
            i <= paths@.len(),
            tm.wf(),
            appended(old(tm)@, tm@, chmod_requests(paths@, mode).subrange(0, i as int)),
        decreases paths@.len() - i,
    {
        let p = &paths[i];
        let description = String::from_str("Chmod ").concat(
            debug_text(display_name(p).as_str()).as_str(),
        ).concat(" to ").concat(in_base(mode as usize, 8).as_str());
        let ghost before = tm@;
        let ghost request = chmod_requests(paths@, mode)[i as int];
        tm.add_task(TaskKind::Chmod { path: p.clone(), mode }, description);
        proof {
            lemma_appended_push(
                old(tm)@,
                before,
                chmod_requests(paths@, mode).subrange(0, i as int),
                tm@.last(),
                request,
            );
            assert(chmod_requests(paths@, mode).subrange(0, i + 1) =~= chmod_requests(
                paths@,
                mode,
            ).subrange(0, i as int).push(request));
        }
        i += 1;
    }
    assert(chmod_requests(paths@, mode).subrange(0, i as int) =~= chmod_requests(paths@, mode));
}

/// The word a clipboard mode is written as.
pub open spec fn mode_word(m: ClipboardMode) -> Seq<char> {
    match m {
        ClipboardMode::Copy => "Copy"@,
        ClipboardMode::Move => "Move"@,
    }
}

/// One copy or move into `dest` per path that has a last component, under
/// that component's name; paths without one are passed over.
pub open spec fn paste_requests(paths: Seq<String>, mode: ClipboardMode, dest: Seq<char>) -> Seq<
    (KindView, Seq<char>),
>
    decreases paths.len(),
{
    if paths.len() == 0 {
        Seq::empty()
    } else {
        let rest = paste_requests(paths.drop_last(), mode, dest);
        let p = paths.last()@;
        match file_name_of(p) {
            Some(n) => {
                let target = joined(dest, n);
                let kind = match mode {
                    ClipboardMode::Copy => KindView::Copy { src: p, dest: target },
                    ClipboardMode::Move => KindView::Move { src: p, dest: target },
                };
                rest.push(
                    (kind, mode_word(mode) + " "@ + debug_of(n) + " -> "@ + debug_of(dest)),
                )
            },
            None => rest,
        }
    }
}

/// Where pasting the paths into `dest` puts them.
pub open spec fn paste_targets(paths: Seq<String>, dest: Seq<char>) -> Seq<Seq<char>>
    decreases paths.len(),
{
    if paths.len() == 0 {
        Seq::empty()
    } else {
        let rest = paste_targets(paths.drop_last(), dest);
        match file_name_of(paths.last()@) {
            Some(n) => rest.push(joined(dest, n)),
            None => rest,
        }
    }
}

/// The (name, path) pairs of `m` without those named `k`.
pub open spec fn drop_key(m: Seq<(String, String)>, k: Seq<char>) -> Seq<(String, String)>
    decreases m.len(),
{
    if m.len() == 0 {
        Seq::empty()
    } else {
        let rest = drop_key(m.drop_last(), k);
        if m.last().0@ == k {
            rest
        } else {
            rest.push(m.last())
        }
    }
}

fn without_key(m: &Vec<(String, String)>, k: &String) -> (r: Vec<(String, String)>)
    ensures
        r@ == drop_key(m@, k@),
{
    let mut r: Vec<(String, String)> = Vec::new();
    let mut i: usize = 0;
    while i < m.len()
        invariant
            i <= m@.len(),
            r@ == drop_key(m@.subrange(0, i as int), k@),
        decreases m@.len() - i,
    {
        assert(m@.subrange(0, i + 1).drop_last() =~= m@.subrange(0, i as int));
        if m[i].0 != *k {
            r.push((m[i].0.clone(), m[i].1.clone()));
        }
        i += 1;
    }
    assert(m@.subrange(0, i as int) =~= m@);
    r
}

/// The file name extension an archive of the given format gets; zip for
/// an unknown format.
pub open spec fn archive_extension(format: Seq<char>) -> Seq<char> {
    if format == "tar"@ {
        ".tar"@
    } else if format == "tar.gz"@ {
        ".tar.gz"@
    } else {
        ".zip"@
    }
}

/// The format after `format` in the cycle zip, tar, tar.gz; zip after an
/// unknown one.
pub open spec fn next_archive_format(format: Seq<char>) -> Seq<char> {
    if format == "zip"@ {
        "tar"@
    } else if format == "tar"@ {
        "tar.gz"@
    } else {
        "zip"@
    }
}

/// One letter of a permission string: `c` when the bit is set, else `-`.
pub open spec fn permission_letter(mode: u32, bit: u32, c: Seq<char>) -> Seq<char> {
    if mode & bit != 0 {
        c
    } else {
        "-"@
    }
}

/// The permission bits of `mode` as letters, grouped as the info panel
/// shows them.
pub open spec fn permission_text_of(mode: u32) -> Seq<char> {
    permission_letter(mode, 0o400, "r"@) + permission_letter(mode, 0o200, "w"@) + " "@
        + permission_letter(mode, 0o100, "x"@) + permission_letter(mode, 0o040, "r"@) + " "@
        + permission_letter(mode, 0o020, "w"@) + permission_letter(mode, 0o010, "x"@)
        + permission_letter(mode, 0o004, "r"@) + permission_letter(mode, 0o002, "w"@)
        + permission_letter(mode, 0o001, "x"@)
}

fn letter(mode: u32, bit: u32, c: &'static str) -> (r: &'static str)
    ensures
        r@ == permission_letter(mode, bit, c@),
{
    if mode & bit != 0 {
        c
    } else {
        "-"
    }
}

/// The permission bits of `mode` written out for the info panel.
pub fn permissions_text(mode: u32) -> (r: String)
    ensures
        r@ == permission_text_of(mode),
{
    let mut r = String::new();
    r.append(letter(mode, 0o400, "r"));
    r.append(letter(mode, 0o200, "w"));
    r.append(" ");
    r.append(letter(mode, 0o100, "x"));
    r.append(letter(mode, 0o040, "r"));
    r.append(" ");
    r.append(letter(mode, 0o020, "w"));
    r.append(letter(mode, 0o010, "x"));
    r.append(letter(mode, 0o004, "r"));
    r.append(letter(mode, 0o002, "w"));
    r.append(letter(mode, 0o001, "x"));
    assert(r@ =~= permission_text_of(mode));
    r
}

fn submit_pastes(tm: &mut TaskManager, paths: &Vec<String>, mode: ClipboardMode, dest: &String)
    requires
        old(tm).wf(),
    ensures
        final(tm).wf(),
        appended(old(tm)@, final(tm)@, paste_requests(paths@, mode, dest@)),
{
    proof {
        reveal_strlit("Copy");
        reveal_strlit("Move");
        reveal_strlit(" ");
        reveal_strlit(" -> ");
        assert(old(tm)@.subrange(0, old(tm)@.len() as int) =~= old(tm)@);
    }
    let mut i: usize = 0;
    while i < paths.len()
        invariant
            i <= paths@.len(),
            tm.wf(),
            appended(old(tm)@, tm@, paste_requests(paths@.subrange(0, i as int), mode, dest@)),
        decreases paths@.len() - i,
    {
        assert(paths@.subrange(0, i + 1).drop_last() =~= paths@.subrange(0, i as int));
        let p = &paths[i];
        if let Some(n) = file_name(p.as_str()) {
            let target = join_path(dest.as_str(), n.as_str());
            let word = match mode {
                ClipboardMode::Copy => "Copy",
                ClipboardMode::Move => "Move",
            };
            let description = String::from_str(word).concat(" ").concat(
                debug_text(n.as_str()).as_str(),
            ).concat(" -> ").concat(debug_text(dest.as_str()).as_str());
            let kind = match mode {
                ClipboardMode::Copy => TaskKind::Copy { src: p.clone(), dest: target },
                ClipboardMode::Move => TaskKind::Move { src: p.clone(), dest: target },
            };
            let ghost before = tm@;
            let ghost request = paste_requests(paths@.subrange(0, i + 1), mode, dest@).last();
            tm.add_task(kind, description);
            proof {
                lemma_appended_push(
                    old(tm)@,
                    before,
                    paste_requests(paths@.subrange(0, i as int), mode, dest@),
                    tm@.last(),
                    request,
                );
            }
        }
        i += 1;
    }
    assert(paths@.subrange(0, i as int) =~= paths@);
}

fn pasted_paths(paths: &Vec<String>, dest: &String) -> (r: Vec<String>)
    ensures
        r@.map_values(|t: String| t@) == paste_targets(paths@, dest@),
{
    let mut r: Vec<String> = Vec::new();
    let mut i: usize = 0;
    while i < paths.len()
        invariant
            i <= paths@.len(),
            r@.map_values(|t: String| t@) == paste_targets(paths@.subrange(0, i as int), dest@),
        decreases paths@.len() - i,
    {
        assert(paths@.subrange(0, i + 1).drop_last() =~= paths@.subrange(0, i as int));
        if let Some(n) = file_name(paths[i].as_str()) {
            let ghost before = r@;
            r.push(join_path(dest.as_str(), n.as_str()));
            assert(r@.map_values(|t: String| t@) =~= before.map_values(|t: String| t@).push(
                joined(dest@, n@),
            ));
        }
        i += 1;
    }
    assert(paths@.subrange(0, i as int) =~= paths@);
    r
}

impl AppState {
    /// At least one tab, the active one among them, and a sound registry.
    pub open spec fn wf(&self) -> bool {
        &&& self.tabs@.len() >= 1
        &&& self.active_tab_index < self.tabs@.len()
        &&& self.task_manager.wf()
    }

    /// The tab in use.
    pub open spec fn active_tab(&self) -> TabState {
        self.tabs@[self.active_tab_index as int]
    }

    /// A fresh state with one tab on `start_dir`, the given well-known
    /// directories, the configuration's bookmarks, no tasks, the middle pane
    /// focused and zip as the archive format.
    pub fn new(config: Config, xdg_dirs: Vec<(String, String)>, start_dir: String) -> (r: AppState)
        ensures
            r.wf(),
            r.tabs@.len() == 1,
            r.tabs@[0].id == 0,
            r.tabs@[0].current_dir == start_dir,
            r.active_tab_index == 0,
            !r.show_tabs,
            r.task_manager@.len() == 0,
            r.focus == FocusBlock::Middle,
            r.xdg_dirs@ == xdg_dirs@,
            r.bookmarks@ == config.bookmarks@,
            r.archive_format@ == "zip"@,
            r.input_mode == InputMode::Normal,
            !r.show_hidden_files,
            !r.show_confirmation,
            !r.show_input_dialog,
            !r.show_search_dialog,
    {
        let bookmarks = copy_pairs(&config.bookmarks);
        let mut tabs: Vec<TabState> = Vec::new();
        tabs.push(TabState::new(0, start_dir));
        AppState {
            tabs,
            active_tab_index: 0,
            show_tabs: false,
            task_manager: TaskManager::new(),
            clipboard: Clipboard::new(),
            show_terminal: false,
            show_hidden_files: false,
            focus: FocusBlock::Middle,
            xdg_dirs,
            xdg_cursor: 0,
            bookmarks,
            bookmarks_cursor: 0,
            mounts: Vec::new(),
            disks_cursor: 0,
            config,
            show_confirmation: false,
            confirmation_message: String::new(),
            path_to_delete: None,
            action_to_confirm: None,
            input_mode: InputMode::Normal,
            input_buffer: String::new(),
            input_dialog_prompt: String::new(),
            show_input_dialog: false,
            create_file_type: None,
            path_to_rename: None,
            pending_paste: None,
            notification: None,
            input_dialog_error: None,
            show_info_panel: false,
            chmod_permissions: String::new(),
            chown_owner: String::new(),
            show_search_dialog: false,
            search_query: String::new(),
            search_mode: SearchMode::Name,
            search_results: Vec::new(),
            search_cursor: 0,
            archive_format: String::from_str("zip"),
            plugins: Vec::new(),
        }
    }

    /// Replaces the listed mount points, keeping the disks cursor on one of
    /// them (or at 0 when there are none).
    pub fn set_mounts(&mut self, mounts: Vec<String>)
        ensures
            final(self).mounts@ == mounts@,
            final(self).disks_cursor == if (old(self).disks_cursor as int) >= mounts@.len() {
                last_position(mounts@.len()) as usize
            } else {
                old(self).disks_cursor
            },
            *final(self) == (AppState {
                mounts: final(self).mounts,
                disks_cursor: final(self).disks_cursor,
                ..*old(self)
            }),
    {
        self.mounts = mounts;
        if self.disks_cursor >= self.mounts.len() {
            self.disks_cursor = self.mounts.len().saturating_sub(1);
        }
    }

    /// Shows or hides the tab bar.
    pub fn toggle_tabs(&mut self)
        ensures
            *final(self) == (AppState { show_tabs: !old(self).show_tabs, ..*old(self) }),
    {
        self.show_tabs = !self.show_tabs;
    }

    /// Shows or hides the terminal pane.
    pub fn toggle_terminal(&mut self)
        ensures
            *final(self) == (AppState { show_terminal: !old(self).show_terminal, ..*old(self) }),
    {
        self.show_terminal = !self.show_terminal;
    }

    /// The tab in use.
    pub fn get_active_tab(&self) -> (r: &TabState)
        requires
            self.wf(),
        ensures
            *r == self.active_tab(),
    {
        &self.tabs[self.active_tab_index]
    }

    /// The paths an action applies to in the tab in use.
    pub fn action_targets(&self) -> (r: Vec<String>)
        requires
            self.wf(),
        ensures
            r@ == targets_of(self.active_tab()),
    {
        let tab = &self.tabs[self.active_tab_index];
        if tab.selected_entries.len() > 0 {
            copy_string_vec(&tab.selected_entries)
        } else {
            match tab.get_selected_entry_path() {
                Some(p) => {
                    let mut r: Vec<String> = Vec::new();
                    r.push(p);
                    assert(r@ =~= seq![tab.filtered_entries@[tab.cursor as int].path]);
                    r
                },
                None => Vec::new(),
            }
        }
    }

    fn take_active_tab(&mut self) -> (r: TabState)
        requires
            old(self).wf(),
        ensures
            r == old(self).active_tab(),
            final(self).active_tab_index == old(self).active_tab_index,
            final(self).tabs@ == old(self).tabs@.remove(old(self).active_tab_index as int),
            *final(self) == (AppState {
                tabs: final(self).tabs,
                ..*old(self)
            }),
    {
        self.tabs.remove(self.active_tab_index)
    }

    fn put_active_tab(&mut self, tab: TabState)
        requires
            old(self).active_tab_index <= old(self).tabs@.len(),
        ensures
            final(self).tabs@ == old(self).tabs@.insert(old(self).active_tab_index as int, tab),
            *final(self) == (AppState {
                tabs: final(self).tabs,
                ..*old(self)
            }),
    {
        self.tabs.insert(self.active_tab_index, tab);
    }

    /// Moves the keyboard to the next block of the cycle.
    pub fn cycle_focus(&mut self)
        ensures
            *final(self) == (AppState { focus: next_focus(old(self).focus), ..*old(self) }),
    {
        self.focus = match self.focus {
            FocusBlock::Xdg => FocusBlock::Bookmarks,
            FocusBlock::Bookmarks => FocusBlock::Disks,
            FocusBlock::Disks => FocusBlock::Middle,
            FocusBlock::Middle => FocusBlock::Xdg,
        };
    }

    /// Switches to the next tab, from the last back to the first.
    pub fn next_tab(&mut self)
        requires
            old(self).wf(),
        ensures
            final(self).wf(),
            *final(self) == (AppState {
                active_tab_index: ((old(self).active_tab_index + 1) % (old(self).tabs@.len() as int)) as usize,
                ..*old(self)
            }),
    {
        let n = self.tabs.len();
        self.active_tab_index = (self.active_tab_index + 1) % n;
    }

    /// Switches to the previous tab, from the first round to the last.
    pub fn previous_tab(&mut self)
        requires
            old(self).wf(),
        ensures
            final(self).wf(),
            *final(self) == (AppState {
                active_tab_index: if old(self).active_tab_index > 0 {
                    (old(self).active_tab_index - 1) as usize
                } else {
                    (old(self).tabs@.len() - 1) as usize
                },
                ..*old(self)
            }),
    {
        if self.active_tab_index > 0 {
            self.active_tab_index -= 1;
        } else {
            self.active_tab_index = self.tabs.len() - 1;
        }
    }

    /// Opens a tab on `start_dir` and switches to it, showing the tab bar;
    /// with `MAX_TABS` open nothing happens. Returns whether a tab was opened
    /// (the caller then reads its listing).
    pub fn new_tab(&mut self, start_dir: String) -> (r: bool)
        requires
            old(self).wf(),
        ensures
            final(self).wf(),
            r == (old(self).tabs@.len() < MAX_TABS),
            !r ==> *final(self) == *old(self),
            r ==> final(self).tabs@.len() == old(self).tabs@.len() + 1,
            r ==> final(self).tabs@.subrange(0, old(self).tabs@.len() as int) == old(self).tabs@,
            r ==> final(self).active_tab().id == old(self).tabs@.len(),
            r ==> final(self).active_tab().current_dir == start_dir,
            r ==> final(self).active_tab_index == old(self).tabs@.len(),
            r ==> final(self).show_tabs,
    {
        if self.tabs.len() >= MAX_TABS {
            return false;
        }
        let new_id = self.tabs.len();
        self.tabs.push(TabState::new(new_id, start_dir));
        self.active_tab_index = new_id;
        self.show_tabs = true;
        assert(self.tabs@.subrange(0, old(self).tabs@.len() as int) =~= old(self).tabs@);
        true
    }

    /// Closes the tab in use unless it is the only one; the tab after it (or
    /// the new last one) becomes active, and the bar hides when one is left.
    pub fn close_tab(&mut self)
        requires
            old(self).wf(),
        ensures
            final(self).wf(),
            old(self).tabs@.len() == 1 ==> *final(self) == *old(self),
            old(self).tabs@.len() > 1 ==> {
                &&& final(self).tabs@ == old(self).tabs@.remove(old(self).active_tab_index as int)
                &&& final(self).active_tab_index == if old(self).active_tab_index
                    >= final(self).tabs@.len() {
                    (final(self).tabs@.len() - 1) as usize
                } else {
                    old(self).active_tab_index
                }
                &&& final(self).show_tabs == if final(self).tabs@.len() == 1 {
                    false
                } else {
                    old(self).show_tabs
                }
            },
    {
        if self.tabs.len() > 1 {
            self.tabs.remove(self.active_tab_index);
            if self.active_tab_index >= self.tabs.len() {
                self.active_tab_index = self.tabs.len() - 1;
            }
            if self.tabs.len() == 1 {
                self.show_tabs = false;
            }
        }
    }

    /// Points the tab in use at the directory the focused side pane shows,
    /// closes the info panel and the search. Returns whether it moved (the
    /// caller then reads the listing and the preview).
    pub fn update_middle_pane_from_left_pane_selection(&mut self) -> (r: bool)
        requires
            old(self).wf(),
        ensures
            final(self).wf(),
            r == (left_pane_target(*old(self)) is Some),
            !r ==> *final(self) == *old(self),
            r ==> final(self).active_tab().current_dir == left_pane_target(*old(self))->Some_0,
            r ==> final(self).active_tab().selected_entries@.len() == 0,
            r ==> final(self).tabs@.len() == old(self).tabs@.len(),
            r ==> final(self).search_query@.len() == 0,
            r ==> final(self).search_results@.len() == 0,
            r ==> *final(self) == (AppState {
                tabs: final(self).tabs,
                show_info_panel: false,
                show_search_dialog: false,
                search_query: final(self).search_query,
                search_results: final(self).search_results,
                search_cursor: 0,
                ..*old(self)
            }),
    {
        let path = match self.focus {
            FocusBlock::Xdg => if self.xdg_cursor < self.xdg_dirs.len() {
                Some(self.xdg_dirs[self.xdg_cursor].1.clone())
            } else {
                None
            },
            FocusBlock::Bookmarks => if self.bookmarks_cursor < self.bookmarks.len() {
                Some(self.bookmarks[self.bookmarks_cursor].1.clone())
            } else {
                None
            },
            FocusBlock::Disks => if self.disks_cursor < self.mounts.len() {
                Some(self.mounts[self.disks_cursor].clone())
            } else {
                None
            },
            FocusBlock::Middle => None,
        };
        match path {
            Some(p) => {
                let mut tab = self.take_active_tab();
                tab.set_current_dir(p);
                self.put_active_tab(tab);
                self.show_info_panel = false;
                self.cancel_search();
                true
            },
            None => false,
        }
    }

    /// One step down the focused side pane, then the tab follows it.
    /// Returns whether the tab moved.
    pub fn move_left_pane_cursor_down(&mut self) -> (r: bool)
        requires
            old(self).wf(),
        ensures
            final(self).wf(),
            old(self).focus is Xdg ==> final(self).xdg_cursor == step_down(
                old(self).xdg_cursor,
                old(self).xdg_dirs@.len(),
            ),
            old(self).focus is Bookmarks ==> final(self).bookmarks_cursor == step_down(
                old(self).bookmarks_cursor,
                old(self).bookmarks@.len(),
            ),
            old(self).focus is Disks ==> final(self).disks_cursor == step_down(
                old(self).disks_cursor,
                old(self).mounts@.len(),
            ),
            old(self).focus is Middle ==> *final(self) == *old(self),
            r == (left_pane_target(AppState {
                xdg_cursor: final(self).xdg_cursor,
                bookmarks_cursor: final(self).bookmarks_cursor,
                disks_cursor: final(self).disks_cursor,
                ..*old(self)
            }) is Some),
            r ==> final(self).active_tab().current_dir == left_pane_target(AppState {
                xdg_cursor: final(self).xdg_cursor,
                bookmarks_cursor: final(self).bookmarks_cursor,
                disks_cursor: final(self).disks_cursor,
                ..*old(self)
            })->Some_0,
    {
        match self.focus {
            FocusBlock::Xdg => {
                self.xdg_cursor = cursor_down(self.xdg_cursor, self.xdg_dirs.len());
            },
            FocusBlock::Bookmarks => {
                self.bookmarks_cursor = cursor_down(self.bookmarks_cursor, self.bookmarks.len());
            },
            FocusBlock::Disks => {
                self.disks_cursor = cursor_down(self.disks_cursor, self.mounts.len());
            },
            FocusBlock::Middle => {},
        }
        let moved = self.update_middle_pane_from_left_pane_selection();
        moved
    }

    /// One step up the focused side pane, then the tab follows it. Returns
    /// whether the tab moved.
    pub fn move_left_pane_cursor_up(&mut self) -> (r: bool)
        requires
            old(self).wf(),
        ensures
            final(self).wf(),
            old(self).focus is Xdg ==> final(self).xdg_cursor == step_up(old(self).xdg_cursor),
            old(self).focus is Bookmarks ==> final(self).bookmarks_cursor == step_up(
                old(self).bookmarks_cursor,
            ),
            old(self).focus is Disks ==> final(self).disks_cursor == step_up(old(self).disks_cursor),
            old(self).focus is Middle ==> *final(self) == *old(self),
            r == (left_pane_target(AppState {
                xdg_cursor: final(self).xdg_cursor,
                bookmarks_cursor: final(self).bookmarks_cursor,
                disks_cursor: final(self).disks_cursor,
                ..*old(self)
            }) is Some),
            r ==> final(self).active_tab().current_dir == left_pane_target(AppState {
                xdg_cursor: final(self).xdg_cursor,
                bookmarks_cursor: final(self).bookmarks_cursor,
                disks_cursor: final(self).disks_cursor,
                ..*old(self)
            })->Some_0,
    {
        match self.focus {
            FocusBlock::Xdg => {
                self.xdg_cursor = cursor_up(self.xdg_cursor);
            },
            FocusBlock::Bookmarks => {
                self.bookmarks_cursor = cursor_up(self.bookmarks_cursor);
            },
            FocusBlock::Disks => {
                self.disks_cursor = cursor_up(self.disks_cursor);
            },
            FocusBlock::Middle => {},
        }
        let moved = self.update_middle_pane_from_left_pane_selection();
        moved
    }

    /// Shows or hides dot files; the caller then reads every tab's listing
    /// again.
    pub fn toggle_hidden_files(&mut self)
        ensures
            *final(self) == (AppState { show_hidden_files: !old(self).show_hidden_files, ..*old(self) }),
    {
        self.show_hidden_files = !self.show_hidden_files;
    }

    /// Puts the action targets on the clipboard for a copy; with none, the
    /// clipboard is left alone.
    pub fn yank_selection(&mut self)
        requires
            old(self).wf(),
        ensures
            final(self).wf(),
            targets_of(old(self).active_tab()).len() > 0 ==> {
                &&& final(self).clipboard.paths@ == targets_of(old(self).active_tab())
                &&& final(self).clipboard.mode == Some(crate::clipboard::ClipboardMode::Copy)
            },
            targets_of(old(self).active_tab()).len() == 0 ==> final(self).clipboard == old(self).clipboard,
            *final(self) == (AppState { clipboard: final(self).clipboard, ..*old(self) }),
    {
        let paths = self.action_targets();
        if paths.len() > 0 {
            self.clipboard.yank(paths);
        }
    }

    /// Puts the action targets on the clipboard for a move; with none, the
    /// clipboard is left alone.
    pub fn cut_selection(&mut self)
        requires
            old(self).wf(),
        ensures
            final(self).wf(),
            targets_of(old(self).active_tab()).len() > 0 ==> {
                &&& final(self).clipboard.paths@ == targets_of(old(self).active_tab())
                &&& final(self).clipboard.mode == Some(crate::clipboard::ClipboardMode::Move)
            },
            targets_of(old(self).active_tab()).len() == 0 ==> final(self).clipboard == old(self).clipboard,
            *final(self) == (AppState { clipboard: final(self).clipboard, ..*old(self) }),
    {
        let paths = self.action_targets();
        if paths.len() > 0 {
            self.clipboard.cut(paths);
        }
    }

    /// Opens the search dialog with an empty query.
    pub fn start_search(&mut self)
        ensures
            final(self).show_search_dialog,
            final(self).search_query@.len() == 0,
            *final(self) == (AppState {
                show_search_dialog: true,
                search_query: final(self).search_query,
                input_mode: InputMode::Normal,
                ..*old(self)
            }),
    {
        self.show_search_dialog = true;
        self.search_query = String::new();
        self.input_mode = InputMode::Normal;
    }

    /// Closes the search dialog and forgets the query and its results.
    pub fn cancel_search(&mut self)
        ensures
            final(self).search_query@.len() == 0,
            final(self).search_results@.len() == 0,
            *final(self) == (AppState {
                show_search_dialog: false,
                search_query: final(self).search_query,
                search_results: final(self).search_results,
                search_cursor: 0,
                ..*old(self)
            }),
    {
        self.show_search_dialog = false;
        self.search_query = String::new();
        self.search_results.clear();
        self.search_cursor = 0;
    }

    /// Runs the query over the tab in use: the results are the entries it
    /// keeps, the cursor goes to the first, and the tab's list narrows the
    /// same way. An empty query only clears the results.
    pub fn update_search(&mut self)
        requires
            old(self).wf(),
        ensures
            final(self).wf(),
            old(self).search_query@.len() == 0 ==> final(self).search_results@.len() == 0,
            old(self).search_query@.len() == 0 ==> *final(self) == (AppState {
                search_results: final(self).search_results,
                ..*old(self)
            }),
            old(self).search_query@.len() > 0 ==> {
                &&& final(self).search_results@ == search_result(
                    old(self).active_tab().entries@,
                    old(self).search_query@,
                    old(self).search_mode,
                )
                &&& final(self).search_cursor == 0
                &&& final(self).active_tab().filtered_entries@ == search_result(
                    old(self).active_tab().entries@,
                    old(self).search_query@,
                    SearchMode::Name,
                )
                &&& final(self).active_tab().cursor == old(self).active_tab().cursor
                &&& final(self).tabs@.len() == old(self).tabs@.len()
                &&& final(self).active_tab_index == old(self).active_tab_index
            },
    {
        if self.search_query.as_str().is_empty() {
            self.search_results.clear();
            return;
        }
        let mode = self.search_mode;
        self.search_results = SearchEngine::search_entries(
            &self.tabs[self.active_tab_index].entries,
            self.search_query.as_str(),
            &mode,
        );
        self.search_cursor = 0;
        let mut tab = self.take_active_tab();
        tab.update_filtered_entries(self.search_query.as_str());
        self.put_active_tab(tab);
    }

    /// One step down the search results.
    pub fn move_search_cursor_down(&mut self)
        ensures
            *final(self) == (AppState {
                search_cursor: step_down(old(self).search_cursor, old(self).search_results@.len()),
                ..*old(self)
            }),
    {
        self.search_cursor = cursor_down(self.search_cursor, self.search_results.len());
    }

    /// One step up the search results.
    pub fn move_search_cursor_up(&mut self)
        ensures
            *final(self) == (AppState { search_cursor: step_up(old(self).search_cursor), ..*old(self) }),
    {
        self.search_cursor = cursor_up(self.search_cursor);
    }

    /// Puts the tab's cursor on the chosen search result, if the tab's list
    /// shows it. Returns whether the cursor moved (the caller then renews the
    /// preview).
    pub fn select_search_result(&mut self) -> (r: bool)
        requires
            old(self).wf(),
        ensures
            final(self).wf(),
            !r ==> *final(self) == *old(self),
            r ==> {
                let p = old(self).search_results@[old(self).search_cursor as int].path@;
                let list = old(self).active_tab().filtered_entries@;
                let c = final(self).active_tab().cursor as int;
                &&& (old(self).search_cursor as int) < old(self).search_results@.len()
                &&& 0 <= c < list.len()
                &&& list[c].path@ == p
                &&& forall|j: int| 0 <= j < c ==> #[trigger] list[j].path@ != p
                &&& final(self).tabs@ == old(self).tabs@.update(
                    old(self).active_tab_index as int,
                    TabState { cursor: c as usize, ..old(self).active_tab() },
                )
            },
            ((old(self).search_cursor as int) < old(self).search_results@.len() && exists|j: int|
                0 <= j < old(self).active_tab().filtered_entries@.len()
                    && #[trigger] old(self).active_tab().filtered_entries@[j].path@
                    == old(self).search_results@[old(self).search_cursor as int].path@) ==> r,
    {
        if self.search_cursor >= self.search_results.len() {
            return false;
        }
        let path = self.search_results[self.search_cursor].path.clone();
        match position_of_path(&self.tabs[self.active_tab_index].filtered_entries, &path) {
            Some(i) => {
                let mut tab = self.take_active_tab();
                tab.cursor = i;
                self.put_active_tab(tab);
                assert(self.tabs@ =~= old(self).tabs@.update(
                    old(self).active_tab_index as int,
                    TabState { cursor: i, ..old(self).active_tab() },
                ));
                true
            },
            None => false,
        }
    }

    /// Asks to confirm deleting the action targets: one is named, several
    /// are counted. The first is remembered in case the marks go away.
    /// With no target nothing happens.
    pub fn delete_selection(&mut self)
        requires
            old(self).wf(),
        ensures
            final(self).wf(),
            ({
                let ts = targets_of(old(self).active_tab());
                &&& ts.len() == 0 ==> *final(self) == *old(self)
                &&& ts.len() > 0 ==> {
                    &&& final(self).path_to_delete == Some(ts[0])
                    &&& final(self).confirmation_message@ == if ts.len() > 1 {
                        "Are you sure you want to delete "@ + digits_of(ts.len(), 10) + " items? (y/n)"@
                    } else {
                        "Are you sure you want to delete "@ + debug_of(name_or_path(ts[0]@)) + "? (y/n)"@
                    }
                    &&& *final(self) == (AppState {
                        path_to_delete: final(self).path_to_delete,
                        confirmation_message: final(self).confirmation_message,
                        show_confirmation: true,
                        action_to_confirm: Some(ActionToConfirm::Delete),
                        ..*old(self)
                    })
                }
            }),
    {
        let paths = self.action_targets();
        if paths.len() > 0 {
            proof {
                reveal_strlit("Are you sure you want to delete ");
                reveal_strlit(" items? (y/n)");
                reveal_strlit("? (y/n)");
            }
            self.path_to_delete = Some(paths[0].clone());
            self.confirmation_message = if paths.len() > 1 {
                String::from_str("Are you sure you want to delete ").concat(
                    in_base(paths.len(), 10).as_str(),
                ).concat(" items? (y/n)")
            } else {
                String::from_str("Are you sure you want to delete ").concat(
                    debug_text(display_name(&paths[0]).as_str()).as_str(),
                ).concat("? (y/n)")
            };
            self.show_confirmation = true;
            self.action_to_confirm = Some(ActionToConfirm::Delete);
        }
    }

    /// Submits one deletion per marked path, or for the remembered path when
    /// nothing is marked, then drops the marks.
    fn confirm_delete(&mut self)
        requires
            old(self).wf(),
        ensures
            final(self).wf(),
            ({
                let sel = old(self).active_tab().selected_entries@;
                let paths = if sel.len() > 0 {
                    sel
                } else {
                    match old(self).path_to_delete {
                        Some(p) => seq![p],
                        None => Seq::empty(),
                    }
                };
                appended(old(self).task_manager@, final(self).task_manager@, delete_requests(paths))
            }),
            old(self).active_tab().selected_entries@.len() == 0 ==> final(self).path_to_delete is None,
            old(self).active_tab().selected_entries@.len() > 0 ==> final(self).path_to_delete
                == old(self).path_to_delete,
            final(self).active_tab().selected_entries@.len() == 0,
            final(self).tabs@.len() == old(self).tabs@.len(),
            *final(self) == (AppState {
                task_manager: final(self).task_manager,
                tabs: final(self).tabs,
                path_to_delete: final(self).path_to_delete,
                ..*old(self)
            }),
    {
        let paths = if self.tabs[self.active_tab_index].selected_entries.len() > 0 {
            copy_string_vec(&self.tabs[self.active_tab_index].selected_entries)
        } else {
            match self.path_to_delete.take() {
                Some(p) => {
                    let mut v: Vec<String> = Vec::new();
                    v.push(p);
                    v
                },
                None => Vec::new(),
            }
        };
        submit_deletes(&mut self.task_manager, &paths);
        let mut tab = self.take_active_tab();
        tab.selected_entries.clear();
        self.put_active_tab(tab);
    }

    /// Asks to confirm unmounting the mount point under the disks cursor,
    /// when the disks pane has the keyboard.
    pub fn unmount_selection(&mut self)
        ensures
            ((old(self).focus is Disks) && (old(self).disks_cursor as int) < old(self).mounts@.len())
                ==> {
                let m = old(self).mounts@[old(self).disks_cursor as int];
                &&& final(self).path_to_delete == Some(m)
                &&& final(self).confirmation_message@ == "Are you sure you want to unmount "@
                    + debug_of(m@) + "? (y/n)"@
                &&& *final(self) == (AppState {
                    path_to_delete: final(self).path_to_delete,
                    confirmation_message: final(self).confirmation_message,
                    show_confirmation: true,
                    action_to_confirm: Some(ActionToConfirm::Unmount),
                    ..*old(self)
                })
            },
            !((old(self).focus is Disks) && (old(self).disks_cursor as int) < old(self).mounts@.len())
                ==> *final(self) == *old(self),
    {
        if self.focus == FocusBlock::Disks && self.disks_cursor < self.mounts.len() {
            proof {
                reveal_strlit("Are you sure you want to unmount ");
                reveal_strlit("? (y/n)");
            }
            let m = self.mounts[self.disks_cursor].clone();
            self.confirmation_message = String::from_str("Are you sure you want to unmount ").concat(
                debug_text(m.as_str()).as_str(),
            ).concat("? (y/n)");
            self.path_to_delete = Some(m);
            self.show_confirmation = true;
            self.action_to_confirm = Some(ActionToConfirm::Unmount);
        }
    }

    /// Submits the unmount of the remembered mount point, if any.
    fn confirm_unmount(&mut self)
        requires
            old(self).wf(),
        ensures
            final(self).wf(),
            final(self).path_to_delete is None,
            match old(self).path_to_delete {
                Some(p) => appended(
                    old(self).task_manager@,
                    final(self).task_manager@,
                    seq![(KindView::Unmount { path: p@ }, "Unmount "@ + debug_of(p@))],
                ),
                None => final(self).task_manager == old(self).task_manager,
            },
            *final(self) == (AppState {
                task_manager: final(self).task_manager,
                path_to_delete: None,
                ..*old(self)
            }),
    {
        if let Some(p) = self.path_to_delete.take() {
            proof {
                reveal_strlit("Unmount ");
            }
            let description = String::from_str("Unmount ").concat(debug_text(p.as_str()).as_str());
            let ghost before = self.task_manager@;
            self.task_manager.add_task(TaskKind::Unmount { path: p }, description);
            assert(self.task_manager@.subrange(0, before.len() as int) =~= before);
            assert(self.task_manager@[before.len() as int + 0] == self.task_manager@.last());
        }
    }

    /// Closes the confirmation dialog and forgets what it was about.
    pub fn cancel(&mut self)
        ensures
            *final(self) == (AppState {
                show_confirmation: false,
                action_to_confirm: None,
                path_to_delete: None,
                pending_paste: None,
                ..*old(self)
            }),
    {
        self.show_confirmation = false;
        self.action_to_confirm = None;
        self.path_to_delete = None;
        self.pending_paste = None;
    }

    /// Submits a permission change for each action target when the input
    /// reads as an octal number, then leaves the input mode and empties the
    /// input.
    pub fn chmod_item(&mut self)
        requires
            old(self).wf(),
        ensures
            final(self).wf(),
            match octal_of(old(self).input_buffer@) {
                Some(mode) => appended(
                    old(self).task_manager@,
                    final(self).task_manager@,
                    chmod_requests(targets_of(old(self).active_tab()), mode),
                ),
                None => final(self).task_manager == old(self).task_manager,
            },
            final(self).input_buffer@.len() == 0,
            *final(self) == (AppState {
                task_manager: final(self).task_manager,
                input_mode: InputMode::Normal,
                input_buffer: final(self).input_buffer,
                ..*old(self)
            }),
    {
        if let Some(mode) = parse_octal(self.input_buffer.as_str()) {
            let paths = self.action_targets();
            submit_chmods(&mut self.task_manager, &paths, mode);
        }
        self.input_mode = InputMode::Normal;
        self.input_buffer = String::new();
    }

    /// Submits an ownership change of the entry under the cursor to the
    /// owner typed in, then leaves the input mode and empties the input.
    pub fn chown_item(&mut self)
        requires
            old(self).wf(),
        ensures
            final(self).wf(),
            ({
                let t = old(self).active_tab();
                &&& (t.cursor as int) < t.filtered_entries@.len() ==> {
                    let p = t.filtered_entries@[t.cursor as int].path@;
                    let o = old(self).input_buffer@;
                    appended(
                        old(self).task_manager@,
                        final(self).task_manager@,
                        seq![
                            (
                                KindView::Chown { path: p, owner: o },
                                "Chown "@ + debug_of(name_or_path(p)) + " to "@ + o,
                            ),
                        ],
                    )
                }
                &&& (t.cursor as int) >= t.filtered_entries@.len() ==> final(self).task_manager
                    == old(self).task_manager
            }),
            final(self).input_buffer@.len() == 0,
            *final(self) == (AppState {
                task_manager: final(self).task_manager,
                input_mode: InputMode::Normal,
                input_buffer: final(self).input_buffer,
                ..*old(self)
            }),
    {
        if let Some(path) = self.tabs[self.active_tab_index].get_selected_entry_path() {
            proof {
                reveal_strlit("Chown ");
                reveal_strlit(" to ");
            }
            let owner = self.input_buffer.clone();
            let description = String::from_str("Chown ").concat(
                debug_text(display_name(&path).as_str()).as_str(),
            ).concat(" to ").concat(owner.as_str());
            let ghost before = self.task_manager@;
            self.task_manager.add_task(TaskKind::Chown { path, owner }, description);
            assert(self.task_manager@.subrange(0, before.len() as int) =~= before);
            assert(self.task_manager@[before.len() as int + 0] == self.task_manager@.last());
        }
        self.input_mode = InputMode::Normal;
        self.input_buffer = String::new();
    }

    /// Where a paste into the tab in use would put the clipboard's paths;
    /// the caller checks these for existing files before calling `paste`.
    pub fn paste_destinations(&self) -> (r: Vec<String>)
        requires
            self.wf(),
        ensures
            r@.map_values(|t: String| t@) == paste_targets(
                self.clipboard.paths@,
                self.active_tab().current_dir@,
            ),
    {
        pasted_paths(&self.clipboard.paths, &self.tabs[self.active_tab_index].current_dir)
    }

    /// Submits one copy or move per clipboard path into `destination`; a
    /// move empties the clipboard afterwards. A clipboard without a mode
    /// submits nothing.
    fn execute_paste(&mut self, clipboard: Clipboard, destination: String)
        requires
            old(self).wf(),
        ensures
            final(self).wf(),
            match clipboard.mode {
                Some(m) => {
                    &&& appended(
                        old(self).task_manager@,
                        final(self).task_manager@,
                        paste_requests(clipboard.paths@, m, destination@),
                    )
                    &&& m is Move ==> final(self).clipboard.paths@.len() == 0
                        && final(self).clipboard.mode is None
                    &&& m is Copy ==> final(self).clipboard == old(self).clipboard
                },
                None => final(self).task_manager == old(self).task_manager && final(self).clipboard
                    == old(self).clipboard,
            },
            *final(self) == (AppState {
                task_manager: final(self).task_manager,
                clipboard: final(self).clipboard,
                ..*old(self)
            }),
    {
        if let Some(mode) = clipboard.mode {
            submit_pastes(&mut self.task_manager, &clipboard.paths, mode, &destination);
            if mode == ClipboardMode::Move {
                self.clipboard.clear();
            }
        }
    }

    /// Pastes the clipboard into the tab in use. When `conflict` (a target
    /// already exists) the paste waits for confirmation instead; with an
    /// empty clipboard nothing happens.
    pub fn paste(&mut self, conflict: bool)
        requires
            old(self).wf(),
        ensures
            final(self).wf(),
            old(self).clipboard.paths@.len() == 0 ==> *final(self) == *old(self),
            old(self).clipboard.paths@.len() > 0 && conflict ==> {
                &&& final(self).confirmation_message@
                    == "A file with the same name already exists. Overwrite? (y/n)"@
                &&& final(self).pending_paste is Some
                &&& final(self).pending_paste->Some_0.0.paths@ == old(self).clipboard.paths@
                &&& final(self).pending_paste->Some_0.0.mode == old(self).clipboard.mode
                &&& final(self).pending_paste->Some_0.1 == old(self).active_tab().current_dir
                &&& *final(self) == (AppState {
                    confirmation_message: final(self).confirmation_message,
                    show_confirmation: true,
                    action_to_confirm: Some(ActionToConfirm::Paste),
                    pending_paste: final(self).pending_paste,
                    ..*old(self)
                })
            },
            old(self).clipboard.paths@.len() > 0 && !conflict ==> match old(self).clipboard.mode {
                Some(m) => {
                    &&& appended(
                        old(self).task_manager@,
                        final(self).task_manager@,
                        paste_requests(
                            old(self).clipboard.paths@,
                            m,
                            old(self).active_tab().current_dir@,
                        ),
                    )
                    &&& m is Move ==> final(self).clipboard.paths@.len() == 0
                        && final(self).clipboard.mode is None
                    &&& m is Copy ==> final(self).clipboard == old(self).clipboard
                },
                None => *final(self) == *old(self),
            },
    {
        if self.clipboard.paths.len() == 0 {
            return;
        }
        let destination = self.tabs[self.active_tab_index].current_dir.clone();
        let held = Clipboard { paths: copy_string_vec(&self.clipboard.paths), mode: self.clipboard.mode };
        if conflict {
            self.confirmation_message = String::from_str(
                "A file with the same name already exists. Overwrite? (y/n)",
            );
            self.show_confirmation = true;
            self.action_to_confirm = Some(ActionToConfirm::Paste);
            self.pending_paste = Some((held, destination));
        } else {
            self.execute_paste(held, destination);
        }
    }

    /// Carries out the paste that waited for confirmation, if any, and
    /// closes the dialog.
    pub fn confirm_paste(&mut self)
        requires
            old(self).wf(),
        ensures
            final(self).wf(),
            final(self).pending_paste is None,
            !final(self).show_confirmation,
            final(self).action_to_confirm is None,
            match old(self).pending_paste {
                Some(pp) => match pp.0.mode {
                    Some(m) => appended(
                        old(self).task_manager@,
                        final(self).task_manager@,
                        paste_requests(pp.0.paths@, m, pp.1@),
                    ),
                    None => final(self).task_manager == old(self).task_manager,
                },
                None => final(self).task_manager == old(self).task_manager,
            },
    {
        if let Some(pp) = self.pending_paste.take() {
            let (clipboard, destination) = pp;
            self.execute_paste(clipboard, destination);
        }
        self.show_confirmation = false;
        self.action_to_confirm = None;
    }

    /// Drops the paste that waited for confirmation and closes the dialog.
    pub fn cancel_paste(&mut self)
        ensures
            *final(self) == (AppState {
                pending_paste: None,
                show_confirmation: false,
                action_to_confirm: None,
                ..*old(self)
            }),
    {
        self.pending_paste = None;
        self.show_confirmation = false;
        self.action_to_confirm = None;
    }

    /// Bookmarks the tab's directory under its last component, in the list
    /// and in the configuration (where it replaces one of the same name).
    /// Returns whether anything was added (the caller then saves the
    /// configuration); a directory without a name is not bookmarked.
    pub fn add_bookmark(&mut self) -> (r: bool)
        requires
            old(self).wf(),
        ensures
            final(self).wf(),
            ({
                let d = old(self).active_tab().current_dir;
                let n = match file_name_of(d@) {
                    Some(n) => n,
                    None => Seq::<char>::empty(),
                };
                &&& r == (n.len() > 0)
                &&& !r ==> *final(self) == *old(self)
                &&& r ==> final(self).bookmarks@.len() == old(self).bookmarks@.len() + 1
                &&& r ==> final(self).bookmarks@.drop_last() == old(self).bookmarks@
                &&& r ==> final(self).bookmarks@.last().0@ == n
                &&& r ==> final(self).bookmarks@.last().1 == d
                &&& r ==> final(self).config.bookmarks@.drop_last() == drop_key(
                    old(self).config.bookmarks@,
                    n,
                )
                &&& r ==> final(self).config.bookmarks@.last().0@ == n
                &&& r ==> final(self).config.bookmarks@.last().1 == d
            }),
            *final(self) == (AppState {
                bookmarks: final(self).bookmarks,
                config: Config { bookmarks: final(self).config.bookmarks, ..old(self).config },
                ..*old(self)
            }),
    {
        let path = self.tabs[self.active_tab_index].current_dir.clone();
        let name = match file_name(path.as_str()) {
            Some(n) => n,
            None => String::new(),
        };
        if name.as_str().is_empty() {
            return false;
        }
        let mut kept = without_key(&self.config.bookmarks, &name);
        kept.push((name.clone(), path.clone()));
        self.config.bookmarks = kept;
        self.bookmarks.push((name, path));
        assert(self.bookmarks@.drop_last() =~= old(self).bookmarks@);
        true
    }

    /// Asks to confirm removing the bookmark under the cursor, when the
    /// bookmarks pane has the keyboard.
    pub fn remove_bookmark(&mut self)
        ensures
            ((old(self).focus is Bookmarks) && (old(self).bookmarks_cursor as int)
                < old(self).bookmarks@.len()) ==> {
                &&& final(self).confirmation_message@ == "Remove bookmark '"@
                    + old(self).bookmarks@[old(self).bookmarks_cursor as int].0@ + "'? (y/n)"@
                &&& *final(self) == (AppState {
                    confirmation_message: final(self).confirmation_message,
                    show_confirmation: true,
                    action_to_confirm: Some(ActionToConfirm::RemoveBookmark),
                    ..*old(self)
                })
            },
            !((old(self).focus is Bookmarks) && (old(self).bookmarks_cursor as int)
                < old(self).bookmarks@.len()) ==> *final(self) == *old(self),
    {
        if self.focus == FocusBlock::Bookmarks && self.bookmarks_cursor < self.bookmarks.len() {
            self.confirmation_message = String::from_str("Remove bookmark '").concat(
                self.bookmarks[self.bookmarks_cursor].0.as_str(),
            ).concat("'? (y/n)");
            self.show_confirmation = true;
            self.action_to_confirm = Some(ActionToConfirm::RemoveBookmark);
        }
    }

    /// Removes the bookmark under the cursor from the list and its name from
    /// the configuration, keeping the cursor on the list. Returns whether one
    /// was removed (the caller then saves the configuration).
    fn confirm_remove_bookmark(&mut self) -> (r: bool)
        requires
            old(self).wf(),
        ensures
            final(self).wf(),
            r == ((old(self).bookmarks_cursor as int) < old(self).bookmarks@.len()),
            !r ==> *final(self) == *old(self),
            r ==> {
                let c = old(self).bookmarks_cursor as int;
                &&& final(self).bookmarks@ == old(self).bookmarks@.remove(c)
                &&& final(self).config.bookmarks@ == drop_key(
                    old(self).config.bookmarks@,
                    old(self).bookmarks@[c].0@,
                )
                &&& final(self).bookmarks_cursor == if old(self).bookmarks_cursor as int
                    >= final(self).bookmarks@.len() {
                    last_position(final(self).bookmarks@.len()) as usize
                } else {
                    old(self).bookmarks_cursor
                }
            },
            *final(self) == (AppState {
                bookmarks: final(self).bookmarks,
                bookmarks_cursor: final(self).bookmarks_cursor,
                config: Config { bookmarks: final(self).config.bookmarks, ..old(self).config },
                ..*old(self)
            }),
    {
        if self.bookmarks_cursor >= self.bookmarks.len() {
            return false;
        }
        let (name, _path) = self.bookmarks.remove(self.bookmarks_cursor);
        self.config.bookmarks = without_key(&self.config.bookmarks, &name);
        if self.bookmarks_cursor >= self.bookmarks.len() {
            self.bookmarks_cursor = self.bookmarks.len().saturating_sub(1);
        }
        true
    }

    /// Carries out the action the confirmation dialog asked about and
    /// closes it. Returns whether the configuration changed (the caller then
    /// saves it).
    pub fn confirm(&mut self) -> (r: bool)
        requires
            old(self).wf(),
        ensures
            final(self).wf(),
            !final(self).show_confirmation,
            final(self).action_to_confirm is None,
            old(self).action_to_confirm is None ==> *final(self) == (AppState {
                show_confirmation: false,
                ..*old(self)
            }),
            r ==> old(self).action_to_confirm == Some(ActionToConfirm::RemoveBookmark),
            old(self).action_to_confirm == Some(ActionToConfirm::Delete) ==> {
                let sel = old(self).active_tab().selected_entries@;
                let paths = if sel.len() > 0 {
                    sel
                } else {
                    match old(self).path_to_delete {
                        Some(p) => seq![p],
                        None => Seq::empty(),
                    }
                };
                appended(old(self).task_manager@, final(self).task_manager@, delete_requests(paths))
            },
            old(self).action_to_confirm == Some(ActionToConfirm::Unmount) ==> match old(
                self,
            ).path_to_delete {
                Some(p) => appended(
                    old(self).task_manager@,
                    final(self).task_manager@,
                    seq![(KindView::Unmount { path: p@ }, "Unmount "@ + debug_of(p@))],
                ),
                None => final(self).task_manager == old(self).task_manager,
            },
            old(self).action_to_confirm == Some(ActionToConfirm::Paste) ==> match old(
                self,
            ).pending_paste {
                Some(pp) => match pp.0.mode {
                    Some(m) => appended(
                        old(self).task_manager@,
                        final(self).task_manager@,
                        paste_requests(pp.0.paths@, m, pp.1@),
                    ),
                    None => final(self).task_manager == old(self).task_manager,
                },
                None => final(self).task_manager == old(self).task_manager,
            },
            old(self).action_to_confirm == Some(ActionToConfirm::RemoveBookmark) ==> {
                &&& r == ((old(self).bookmarks_cursor as int) < old(self).bookmarks@.len())
                &&& r ==> final(self).bookmarks@ == old(self).bookmarks@.remove(
                    old(self).bookmarks_cursor as int,
                )
            },
    {
        let action = self.action_to_confirm.take();
        let mut saved = false;
        match action {
            Some(ActionToConfirm::Delete) => self.confirm_delete(),
            Some(ActionToConfirm::Paste) => self.confirm_paste(),
            Some(ActionToConfirm::Unmount) => self.confirm_unmount(),
            Some(ActionToConfirm::RemoveBookmark) => {
                saved = self.confirm_remove_bookmark();
            },
            None => {},
        }
        self.show_confirmation = false;
        saved
    }

    /// Where the item named in the input would be created in the tab in use;
    /// the caller checks it for an existing file before calling `create_item`.
    pub fn new_item_path(&self) -> (r: String)
        requires
            self.wf(),
        ensures
            r@ == joined(self.active_tab().current_dir@, self.input_buffer@),
    {
        join_path(self.tabs[self.active_tab_index].current_dir.as_str(), self.input_buffer.as_str())
    }

    /// Submits the creation of the file or directory named in the input.
    /// When `exists` (the path is taken) the dialog stays open with an error
    /// and the name kept; with an empty input nothing happens. Without a
    /// chosen type nothing is submitted.
    pub fn create_item(&mut self, exists: bool)
        requires
            old(self).wf(),
        ensures
            final(self).wf(),
            old(self).input_buffer@.len() == 0 ==> *final(self) == *old(self),
            old(self).input_buffer@.len() > 0 && exists ==> {
                &&& final(self).input_dialog_error is Some
                &&& final(self).input_dialog_error->Some_0@ == "A file with this name already exists."@
                &&& final(self).input_buffer == old(self).input_buffer
                &&& *final(self) == (AppState {
                    input_dialog_error: final(self).input_dialog_error,
                    show_input_dialog: true,
                    ..*old(self)
                })
            },
            old(self).input_buffer@.len() > 0 && !exists ==> {
                let p = joined(old(self).active_tab().current_dir@, old(self).input_buffer@);
                let d = "Create "@ + debug_of(p);
                &&& final(self).input_buffer@.len() == 0
                &&& final(self).create_file_type is None
                &&& match old(self).create_file_type {
                    Some(CreateFileType::File) => appended(
                        old(self).task_manager@,
                        final(self).task_manager@,
                        seq![(KindView::CreateFile { path: p }, d)],
                    ),
                    Some(CreateFileType::Directory) => appended(
                        old(self).task_manager@,
                        final(self).task_manager@,
                        seq![(KindView::CreateDirectory { path: p }, d)],
                    ),
                    None => final(self).task_manager == old(self).task_manager,
                }
                &&& *final(self) == (AppState {
                    task_manager: final(self).task_manager,
                    input_buffer: final(self).input_buffer,
                    create_file_type: None,
                    ..*old(self)
                })
            },
    {
        if self.input_buffer.as_str().is_empty() {
            return;
        }
        if exists {
            self.input_dialog_error = Some(String::from_str("A file with this name already exists."));
            self.show_input_dialog = true;
            return;
        }
        proof {
            reveal_strlit("Create ");
        }
        let path = self.new_item_path();
        self.input_buffer = String::new();
        let description = String::from_str("Create ").concat(debug_text(path.as_str()).as_str());
        let ghost before = self.task_manager@;
        match self.create_file_type {
            Some(CreateFileType::File) => {
                self.task_manager.add_task(TaskKind::CreateFile { path }, description);
            },
            Some(CreateFileType::Directory) => {
                self.task_manager.add_task(TaskKind::CreateDirectory { path }, description);
            },
            None => {},
        }
        if self.create_file_type.is_some() {
            assert(self.task_manager@.subrange(0, before.len() as int) =~= before);
            assert(self.task_manager@[before.len() as int + 0] == self.task_manager@.last());
        }
        self.create_file_type = None;
    }

    /// Opens the rename dialog on the entry under the cursor, with its name
    /// as the input.
    pub fn rename_selection(&mut self)
        requires
            old(self).wf(),
        ensures
            ({
                let t = old(self).active_tab();
                &&& (t.cursor as int) >= t.filtered_entries@.len() ==> *final(self) == *old(self)
                &&& (t.cursor as int) < t.filtered_entries@.len() ==> {
                    let p = t.filtered_entries@[t.cursor as int].path;
                    &&& final(self).path_to_rename == Some(p)
                    &&& final(self).input_buffer@ == match file_name_of(p@) {
                        Some(n) => n,
                        None => Seq::<char>::empty(),
                    }
                    &&& *final(self) == (AppState {
                        path_to_rename: final(self).path_to_rename,
                        input_buffer: final(self).input_buffer,
                        input_mode: InputMode::Rename,
                        show_input_dialog: true,
                        input_dialog_error: None,
                        ..*old(self)
                    })
                }
            }),
    {
        if let Some(path) = self.tabs[self.active_tab_index].get_selected_entry_path() {
            self.input_buffer = match file_name(path.as_str()) {
                Some(n) => n,
                None => String::new(),
            };
            self.path_to_rename = Some(path);
            self.input_mode = InputMode::Rename;
            self.show_input_dialog = true;
            self.input_dialog_error = None;
        }
    }

    /// The path a rename to the typed name would give, if a rename is under
    /// way; the caller checks it for an existing file before `rename_item`.
    pub fn renamed_path(&self) -> (r: Option<String>)
        ensures
            match self.path_to_rename {
                Some(p) => r is Some && r->Some_0@ == renamed(p@, self.input_buffer@),
                None => r is None,
            },
    {
        match &self.path_to_rename {
            Some(p) => Some(with_file_name(p.as_str(), self.input_buffer.as_str())),
            None => None,
        }
    }

    /// Submits the rename under way as a move to the typed name. An empty
    /// name abandons the rename; when `exists` (the new path is taken) the
    /// dialog stays open with an error.
    pub fn rename_item(&mut self, exists: bool)
        requires
            old(self).wf(),
        ensures
            final(self).wf(),
            old(self).path_to_rename is None ==> *final(self) == (AppState {
                input_mode: InputMode::Normal,
                ..*old(self)
            }),
            old(self).path_to_rename is Some && old(self).input_buffer@.len() == 0 ==> {
                &&& final(self).input_buffer@.len() == 0
                &&& *final(self) == (AppState {
                    input_mode: InputMode::Normal,
                    show_input_dialog: false,
                    input_buffer: final(self).input_buffer,
                    path_to_rename: None,
                    ..*old(self)
                })
            },
            old(self).path_to_rename is Some && old(self).input_buffer@.len() > 0 && exists ==> {
                &&& final(self).input_dialog_error is Some
                &&& final(self).input_dialog_error->Some_0@ == "A file with this name already exists."@
                &&& *final(self) == (AppState {
                    input_dialog_error: final(self).input_dialog_error,
                    show_input_dialog: true,
                    ..*old(self)
                })
            },
            old(self).path_to_rename is Some && old(self).input_buffer@.len() > 0 && !exists ==> {
                let p = old(self).path_to_rename->Some_0@;
                let q = renamed(p, old(self).input_buffer@);
                &&& appended(
                    old(self).task_manager@,
                    final(self).task_manager@,
                    seq![
                        (
                            KindView::Move { src: p, dest: q },
                            "Rename "@ + debug_of(p) + " to "@ + debug_of(q),
                        ),
                    ],
                )
                &&& final(self).input_buffer@.len() == 0
                &&& *final(self) == (AppState {
                    task_manager: final(self).task_manager,
                    path_to_rename: None,
                    input_buffer: final(self).input_buffer,
                    input_mode: InputMode::Normal,
                    ..*old(self)
                })
            },
    {
        if let Some(target) = self.renamed_path() {
            let from = match &self.path_to_rename {
                Some(p) => p.clone(),
                None => String::new(),
            };
            if self.input_buffer.as_str().is_empty() {
                self.input_mode = InputMode::Normal;
                self.show_input_dialog = false;
                self.input_buffer = String::new();
                self.path_to_rename = None;
                return;
            }
            if exists {
                self.input_dialog_error = Some(String::from_str("A file with this name already exists."));
                self.show_input_dialog = true;
                return;
            }
            proof {
                reveal_strlit("Rename ");
                reveal_strlit(" to ");
            }
            self.path_to_rename = None;
            self.input_buffer = String::new();
            let description = String::from_str("Rename ").concat(debug_text(from.as_str()).as_str()).concat(
                " to ",
            ).concat(debug_text(target.as_str()).as_str());
            let ghost before = self.task_manager@;
            self.task_manager.add_task(TaskKind::Move { src: from, dest: target }, description);
            assert(self.task_manager@.subrange(0, before.len() as int) =~= before);
            assert(self.task_manager@[before.len() as int + 0] == self.task_manager@.last());
        }
        self.input_mode = InputMode::Normal;
    }

    /// Opens the permissions dialog: several marks are counted, else the
    /// entry under the cursor is named; with neither nothing happens.
    pub fn chmod_selection(&mut self)
        requires
            old(self).wf(),
        ensures
            ({
                let t = old(self).active_tab();
                let k = t.selected_entries@.len();
                let on_entry = (t.cursor as int) < t.filtered_entries@.len();
                &&& k <= 1 && !on_entry ==> *final(self) == *old(self)
                &&& (k > 1 || on_entry) ==> {
                    &&& final(self).input_dialog_prompt@ == if k > 1 {
                        "What permissions do you want to set for "@ + digits_of(k, 10)
                            + " selected files?"@
                    } else {
                        "Enter new permissions for \""@ + match file_name_of(
                            t.filtered_entries@[t.cursor as int].path@,
                        ) {
                            Some(n) => n,
                            None => Seq::<char>::empty(),
                        } + "\" (octal):"@
                    }
                    &&& final(self).input_buffer@.len() == 0
                    &&& *final(self) == (AppState {
                        input_dialog_prompt: final(self).input_dialog_prompt,
                        input_mode: InputMode::Chmod,
                        show_input_dialog: true,
                        input_buffer: final(self).input_buffer,
                        input_dialog_error: None,
                        ..*old(self)
                    })
                }
            }),
    {
        let tab = &self.tabs[self.active_tab_index];
        let k = tab.selected_entries.len();
        let prompt = if k > 1 {
            String::from_str("What permissions do you want to set for ").concat(
                in_base(k, 10).as_str(),
            ).concat(" selected files?")
        } else if let Some(path) = tab.get_selected_entry_path() {
            let name = match file_name(path.as_str()) {
                Some(n) => n,
                None => String::new(),
            };
            String::from_str("Enter new permissions for \"").concat(name.as_str()).concat(
                "\" (octal):",
            )
        } else {
            return;
        };
        self.input_dialog_prompt = prompt;
        self.input_mode = InputMode::Chmod;
        self.show_input_dialog = true;
        self.input_buffer = String::new();
        self.input_dialog_error = None;
    }

    /// Opens the archive dialog: several marks are counted, else the entry
    /// under the cursor is named; with neither nothing happens.
    pub fn archive_selection(&mut self)
        requires
            old(self).wf(),
        ensures
            ({
                let t = old(self).active_tab();
                let k = t.selected_entries@.len();
                let on_entry = (t.cursor as int) < t.filtered_entries@.len();
                &&& k <= 1 && !on_entry ==> *final(self) == *old(self)
                &&& (k > 1 || on_entry) ==> {
                    &&& final(self).input_dialog_prompt@ == if k > 1 {
                        "Archive "@ + digits_of(k, 10) + " selected files. Enter archive name:"@
                    } else {
                        "Archive \""@ + match file_name_of(
                            t.filtered_entries@[t.cursor as int].path@,
                        ) {
                            Some(n) => n,
                            None => Seq::<char>::empty(),
                        } + "\". Enter archive name:"@
                    }
                    &&& final(self).input_buffer@.len() == 0
                    &&& *final(self) == (AppState {
                        input_dialog_prompt: final(self).input_dialog_prompt,
                        input_mode: InputMode::Archive,
                        show_input_dialog: true,
                        input_buffer: final(self).input_buffer,
                        input_dialog_error: None,
                        ..*old(self)
                    })
                }
            }),
    {
        let tab = &self.tabs[self.active_tab_index];
        let k = tab.selected_entries.len();
        let prompt = if k > 1 {
            String::from_str("Archive ").concat(in_base(k, 10).as_str()).concat(
                " selected files. Enter archive name:",
            )
        } else if let Some(path) = tab.get_selected_entry_path() {
            let name = match file_name(path.as_str()) {
                Some(n) => n,
                None => String::new(),
            };
            String::from_str("Archive \"").concat(name.as_str()).concat(
                "\". Enter archive name:",
            )
        } else {
            return;
        };
        self.input_dialog_prompt = prompt;
        self.input_mode = InputMode::Archive;
        self.show_input_dialog = true;
        self.input_buffer = String::new();
        self.input_dialog_error = None;
    }

    /// Moves to the next archive format of the cycle.
    pub fn select_archive_format(&mut self)
        ensures
            final(self).archive_format@ == next_archive_format(old(self).archive_format@),
            *final(self) == (AppState { archive_format: final(self).archive_format, ..*old(self) }),
    {
        proof {
            reveal_strlit("zip");
            reveal_strlit("tar");
            reveal_strlit("tar.gz");
        }
        self.archive_format = if same_text(self.archive_format.as_str(), "zip") {
            String::from_str("tar")
        } else if same_text(self.archive_format.as_str(), "tar") {
            String::from_str("tar.gz")
        } else {
            String::from_str("zip")
        };
    }

    /// Submits an archive of the action targets, named as typed with the
    /// format's extension, in the tab's directory. An empty name keeps the
    /// dialog open with an error.
    pub fn archive_item(&mut self)
        requires
            old(self).wf(),
        ensures
            final(self).wf(),
            old(self).input_buffer@.len() == 0 ==> {
                &&& final(self).input_dialog_error is Some
                &&& final(self).input_dialog_error->Some_0@ == "Archive name cannot be empty"@
                &&& *final(self) == (AppState {
                    input_dialog_error: final(self).input_dialog_error,
                    show_input_dialog: true,
                    ..*old(self)
                })
            },
            old(self).input_buffer@.len() > 0 ==> {
                let ts = targets_of(old(self).active_tab());
                let f = old(self).archive_format@;
                let dest = joined(
                    old(self).active_tab().current_dir@,
                    old(self).input_buffer@ + archive_extension(f),
                );
                &&& ts.len() > 0 ==> appended(
                    old(self).task_manager@,
                    final(self).task_manager@,
                    seq![
                        (
                            KindView::Archive {
                                paths: ts.map_values(|p: String| p@),
                                dest,
                                format: f,
                            },
                            "Archive "@ + digits_of(ts.len(), 10) + " items to "@ + debug_of(dest),
                        ),
                    ],
                )
                &&& ts.len() == 0 ==> final(self).task_manager == old(self).task_manager
                &&& final(self).input_buffer@.len() == 0
                &&& *final(self) == (AppState {
                    task_manager: final(self).task_manager,
                    input_mode: InputMode::Normal,
                    input_buffer: final(self).input_buffer,
                    ..*old(self)
                })
            },
    {
        if self.input_buffer.as_str().is_empty() {
            self.input_dialog_error = Some(String::from_str("Archive name cannot be empty"));
            self.show_input_dialog = true;
            return;
        }
        let paths = self.action_targets();
        if paths.len() > 0 {
            proof {
                reveal_strlit("zip");
                reveal_strlit("tar");
                reveal_strlit("tar.gz");
                reveal_strlit("Archive ");
                reveal_strlit(" items to ");
            }
            let f = self.archive_format.as_str();
            let extension = if same_text(f, "tar") {
                ".tar"
            } else if same_text(f, "tar.gz") {
                ".tar.gz"
            } else {
                ".zip"
            };
            let file = self.input_buffer.clone().concat(extension);
            let dest = join_path(self.tabs[self.active_tab_index].current_dir.as_str(), file.as_str());
            let description = String::from_str("Archive ").concat(in_base(paths.len(), 10).as_str()).concat(
                " items to ",
            ).concat(debug_text(dest.as_str()).as_str());
            let ghost before = self.task_manager@;
            let format = self.archive_format.clone();
            self.task_manager.add_task(TaskKind::Archive { paths, dest, format }, description);
            assert(self.task_manager@.subrange(0, before.len() as int) =~= before);
            assert(self.task_manager@[before.len() as int + 0] == self.task_manager@.last());
        }
        self.input_mode = InputMode::Normal;
        self.input_buffer = String::new();
    }

    /// The colour scheme the configuration names, or Dracula when it names
    /// none or an unknown one.
    pub fn get_current_color_scheme(&self) -> (r: ColorScheme)
        ensures
            r == match self.config.theme.color_scheme {
                Some(n) => match scheme_named(n@) {
                    Some(c) => c,
                    None => ColorScheme::Dracula,
                },
                None => ColorScheme::Dracula,
            },
    {
        match &self.config.theme.color_scheme {
            Some(n) => match ColorScheme::from_name(n.as_str()) {
                Some(c) => c,
                None => ColorScheme::Dracula,
            },
            None => ColorScheme::Dracula,
        }
    }

    /// Records `color_scheme` in the configuration by its display name.
    pub fn set_color_scheme(&mut self, color_scheme: ColorScheme)
        ensures
            final(self).config.theme.color_scheme is Some,
            final(self).config.theme.color_scheme->Some_0@ == crate::settings::scheme_name(
                color_scheme,
            ),
            *final(self) == (AppState {
                config: Config {
                    theme: crate::config::Theme {
                        color_scheme: final(self).config.theme.color_scheme,
                    },
                    ..old(self).config
                },
                ..*old(self)
            }),
    {
        self.config.theme.color_scheme = Some(String::from_str(color_scheme.name()));
    }
}

} // verus!
