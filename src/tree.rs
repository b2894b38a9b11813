//! The tree model: a filesystem snapshot as the library receives it, the
//! display options, and the bounded sequence of lines that is shown.

use vstd::prelude::*;
use crate::dam::Dam;
use crate::pattern::{InputPattern, PatternKind};
use vstd::arithmetic::div_mod::{lemma_add_mod_noop, lemma_small_mod, lemma_sub_mod_noop};

verus! {

/// The kind of one line, or of one filesystem entry.
#[derive(Debug)]
pub enum TreeLineType {
    File,
    Dir,
    SymLinkToDir(String),
    SymLinkToFile(String),
    /// Stands for `count` entries that are not shown.
    Pruning { count: usize },
}

impl Clone for TreeLineType {
    fn clone(&self) -> (r: TreeLineType)
        ensures
            r == *self,
    {
        match self {
            TreeLineType::File => TreeLineType::File,
            TreeLineType::Dir => TreeLineType::Dir,
            TreeLineType::SymLinkToDir(t) => TreeLineType::SymLinkToDir(t.clone()),
            TreeLineType::SymLinkToFile(t) => TreeLineType::SymLinkToFile(t.clone()),
            TreeLineType::Pruning { count } => TreeLineType::Pruning { count: *count },
        }
    }
}

/// Whether a line of this kind can be descended into.
pub open spec fn dir_like(t: TreeLineType) -> bool {
    t is Dir || t is SymLinkToDir
}

impl TreeLineType {
    pub fn is_dir_like(&self) -> (r: bool)
        ensures
            r == dir_like(*self),
    {
        match self {
            TreeLineType::Dir => true,
            TreeLineType::SymLinkToDir(_) => true,
            _ => false,
        }
    }
}

/// How sibling lines are ordered for display.
#[derive(Clone, Copy, Debug, PartialEq, Eq, Structural)]
pub enum Sort {
    Unsorted,
    Count,
    Date,
    Size,
}

/// The options a tree is built with.
#[derive(Debug)]
pub struct TreeOptions {
    pub show_hidden: bool,
    pub only_folders: bool,
    pub show_counts: bool,
    pub show_dates: bool,
    pub show_sizes: bool,
    pub show_permissions: bool,
    pub show_git_file_info: bool,
    pub filter_by_git_status: bool,
    pub respect_git_ignore: bool,
    pub trim_root: bool,
    pub sort: Sort,
    pub pattern: InputPattern,
}

impl Clone for TreeOptions {
    fn clone(&self) -> (r: TreeOptions)
        ensures
            r == *self,
    {
        TreeOptions {
            show_hidden: self.show_hidden,
            only_folders: self.only_folders,
            show_counts: self.show_counts,
            show_dates: self.show_dates,
            show_sizes: self.show_sizes,
            show_permissions: self.show_permissions,
            show_git_file_info: self.show_git_file_info,
            filter_by_git_status: self.filter_by_git_status,
            respect_git_ignore: self.respect_git_ignore,
            trim_root: self.trim_root,
            sort: self.sort,
            pattern: self.pattern.clone(),
        }
    }
}

impl TreeOptions {
    pub open spec fn wf(&self) -> bool {
        self.pattern.wf()
    }

    /// The same options with the pattern taken away.
    pub open spec fn without_pattern_spec(self) -> TreeOptions {
        TreeOptions {
            pattern: InputPattern { raw: self.pattern.raw, kind: PatternKind::NoPattern },
            ..self
        }
    }

    /// The default options: hidden and ignored files hidden, no pattern.
    pub fn new() -> (o: TreeOptions)
        ensures
            o.wf(),
            !o.show_hidden,
            o.respect_git_ignore,
            o.sort == Sort::Unsorted,
            !o.pattern.is_active(),
    {
        TreeOptions {
            show_hidden: false,
            only_folders: false,
            show_counts: false,
            show_dates: false,
            show_sizes: false,
            show_permissions: false,
            show_git_file_info: false,
            filter_by_git_status: false,
            respect_git_ignore: true,
            trim_root: true,
            sort: Sort::Unsorted,
            pattern: InputPattern::none(),
        }
    }

    /// The same options without a pattern.
    pub fn without_pattern(&self) -> (o: TreeOptions)
        ensures
            o.show_hidden == self.show_hidden,
            o.only_folders == self.only_folders,
            o.show_counts == self.show_counts,
            o.show_dates == self.show_dates,
            o.show_sizes == self.show_sizes,
            o.show_permissions == self.show_permissions,
            o.show_git_file_info == self.show_git_file_info,
            o.filter_by_git_status == self.filter_by_git_status,
            o.respect_git_ignore == self.respect_git_ignore,
            o.trim_root == self.trim_root,
            o.sort == self.sort,
            !o.pattern.is_active(),
            o.pattern.wf(),
    {
        let mut o = self.clone();
        o.pattern = InputPattern::none();
        o
    }
}

/// One entry of a filesystem snapshot, listed after its parent directory.
#[derive(Debug)]
pub struct FsEntry {
    pub name: String,
    /// Index of the parent entry; the root is its own parent.
    pub parent: usize,
    pub depth: usize,
    pub line_type: TreeLineType,
    pub size: u64,
    pub is_exe: bool,
    /// Whether version-control ignore rules exclude this entry.
    pub ignored: bool,
}

impl Clone for FsEntry {
    fn clone(&self) -> (r: FsEntry)
        ensures
            r == *self,
    {
        FsEntry {
            name: self.name.clone(),
            parent: self.parent,
            depth: self.depth,
            line_type: self.line_type.clone(),
            size: self.size,
            is_exe: self.is_exe,
            ignored: self.ignored,
        }
    }
}

/// What was read of a directory subtree: the root's path, as components,
/// and its entries, the root first.
#[derive(Debug)]
pub struct FsSnapshot {
    pub root: Vec<String>,
    pub entries: Vec<FsEntry>,
}

/// Each entry but the root has an earlier, directory-like parent one level up;
/// the root, when there is one, is its own parent at depth zero; siblings
/// have distinct names, so that a path names one entry.
pub open spec fn entries_wf(s: Seq<FsEntry>) -> bool {
    &&& (s.len() >= 1 ==> s[0].parent == 0 && s[0].depth == 0 && !(s[0].line_type is Pruning))
    &&& forall|i: int|
        0 < i < s.len() ==> {
            &&& #[trigger] s[i].parent < i
            &&& s[i].depth == s[s[i].parent as int].depth + 1
            &&& dir_like(s[s[i].parent as int].line_type)
            &&& !(s[i].line_type is Pruning)
        }
    &&& forall|i: int, j: int|
        0 < i < s.len() && 0 < j < s.len() && i != j && #[trigger] s[i].parent == #[trigger] s[j].parent
            ==> s[i].name@ != s[j].name@
}

impl FsSnapshot {
    pub open spec fn wf(&self) -> bool {
        entries_wf(self.entries@)
    }

    /// A copy of the snapshot, entry for entry.
    pub fn duplicate(&self) -> (r: FsSnapshot)
        ensures
            r.root@ == self.root@,
            r.entries@ == self.entries@,
    {
        let mut root: Vec<String> = Vec::new();
        let mut i: usize = 0;
        while i < self.root.len()
            invariant
                i <= self.root@.len(),
                root@ == self.root@.subrange(0, i as int),
            decreases self.root@.len() - i,
        {
            root.push(self.root[i].clone());
            i = i + 1;
        }
        let mut entries: Vec<FsEntry> = Vec::new();
        let mut j: usize = 0;
        while j < self.entries.len()
            invariant
                j <= self.entries@.len(),
                entries@ == self.entries@.subrange(0, j as int),
            decreases self.entries@.len() - j,
        {
            entries.push(self.entries[j].clone());
            j = j + 1;
        }
        assert(root@ =~= self.root@);
        assert(entries@ =~= self.entries@);
        FsSnapshot { root, entries }
    }
}

/// Aggregate figures of a directory: total size and number of descendants.
#[derive(Clone, Copy, Debug, PartialEq, Eq, Structural)]
pub struct FileSum {
    pub size: u64,
    pub count: usize,
}

/// Version-control figures of a tree, as the status collaborator reports them.
#[derive(Clone, Debug)]
pub struct TreeGitStatus {
    pub current_branch: String,
    pub insertions: usize,
    pub deletions: usize,
}

/// One displayed row.
#[derive(Debug)]
pub struct TreeLine {
    /// Index of the snapshot entry the line shows.
    pub entry: usize,
    pub name: String,
    pub depth: usize,
    pub line_type: TreeLineType,
    pub is_exe: bool,
    /// Whether the line's own name matches the pattern.
    pub direct_match: bool,
    pub score: usize,
    /// Aggregate figures, once computed, for a directory line.
    pub sum: Option<FileSum>,
}

/// The displayed tree: the root's path, its lines in order (the root line
/// first), the selection and the first line in view.
#[derive(Debug)]
pub struct Tree {
    pub root: Vec<String>,
    pub lines: Vec<TreeLine>,
    pub selection: usize,
    pub scroll: usize,
    pub options: TreeOptions,
    /// Whether every matching descendant was visited and kept.
    pub total_search: bool,
    pub git_status: Option<TreeGitStatus>,
}

impl Tree {
    pub open spec fn wf(&self) -> bool {
        &&& self.lines@.len() >= 1
        &&& self.selection < self.lines@.len()
        &&& self.scroll < self.lines@.len()
        &&& self.options.wf()
    }
}

/// The number of rows a page shows: at least one.
pub open spec fn rows(page_height: i32) -> int {
    if page_height < 1 {
        1
    } else {
        page_height as int
    }
}

/// Where the view starts once line `sel` is brought into a view of `ph`
/// rows that started at `scroll`.
pub open spec fn scroll_to_show(scroll: int, sel: int, ph: int) -> int {
    if sel < scroll {
        sel
    } else if sel >= scroll + ph {
        sel + 1 - ph
    } else {
        scroll
    }
}

/// The first line in `[a, b)` whose name matches the pattern.
pub open spec fn first_match_in(lines: Seq<TreeLine>, a: int, b: int) -> Option<int>
    decreases b - a,
{
    if a >= b {
        None
    } else if lines[a].direct_match {
        Some(a)
    } else {
        first_match_in(lines, a + 1, b)
    }
}

/// The last line in `[a, b)` whose name matches the pattern.
pub open spec fn last_match_in(lines: Seq<TreeLine>, a: int, b: int) -> Option<int>
    decreases b - a,
{
    if a >= b {
        None
    } else if lines[b - 1].direct_match {
        Some(b - 1)
    } else {
        last_match_in(lines, a, b - 1)
    }
}

/// The first line showing entry `e`.
pub open spec fn first_line_of(lines: Seq<TreeLine>, e: int, k: int) -> Option<int>
    decreases k,
{
    if k <= 0 {
        None
    } else {
        match first_line_of(lines, e, k - 1) {
            Some(x) => Some(x),
            None => if lines[k - 1].entry == e {
                Some(k - 1)
            } else {
                None
            },
        }
    }
}

/// Where the selection goes to stay in a view of `ph` rows from `scroll`.
pub open spec fn select_in_view(sel: int, scroll: int, ph: int) -> int {
    if sel < scroll {
        scroll
    } else if sel - scroll >= ph {
        scroll + ph - 1
    } else {
        sel
    }
}

/// Where a scroll to `x` lands in `n` lines viewed `ph` rows at a time.
pub open spec fn clamp_scroll(x: int, n: int, ph: int) -> int {
    let top = if n > ph {
        n - ph
    } else {
        0
    };
    if x < 0 {
        0
    } else if x > top {
        top
    } else {
        x
    }
}

impl Tree {
    /// The line under the selection.
    pub fn selected_line(&self) -> (l: &TreeLine)
        requires
            self.wf(),
        ensures
            *l == self.lines@[self.selection as int],
    {
        &self.lines[self.selection]
    }

    /// Brings the selection into a view of `page_height` rows.
    pub fn make_selection_visible(&mut self, page_height: i32)
        requires
            old(self).wf(),
        ensures
            final(self).wf(),
            final(self).scroll as int == scroll_to_show(
                old(self).scroll as int,
                old(self).selection as int,
                rows(page_height),
            ),
            *final(self) == (Tree {
                scroll: scroll_to_show(
                    old(self).scroll as int,
                    old(self).selection as int,
                    rows(page_height),
                ) as usize,
                ..*old(self)
            }),
    {
        let ph: usize = if page_height < 1 {
            1
        } else {
            page_height as usize
        };
        if self.selection < self.scroll {
            self.scroll = self.selection;
        } else if self.selection - self.scroll >= ph {
            self.scroll = self.selection - ph + 1;
        }
    }

    /// Moves the selection by `dy` lines, wrapping around the ends.
    pub fn move_selection(&mut self, dy: i32, page_height: i32)
        requires
            old(self).wf(),
        ensures
            final(self).wf(),
            final(self).selection as int == (old(self).selection as int + dy as int) % (
            old(self).lines@.len() as int),
            *final(self) == (Tree { selection: final(self).selection, scroll: final(self).scroll, ..*old(self) }),
            final(self).scroll as int == scroll_to_show(
                old(self).scroll as int,
                final(self).selection as int,
                rows(page_height),
            ),
    {
        let n = self.lines.len();
        let ghost start = self.selection as int;
        let up = dy < 0;
        let steps: u32 = if up {
            (0i64 - dy as i64) as u32
        } else {
            dy as u32
        };
        let mut k: u32 = 0;
        proof {
            lemma_small_mod(start as nat, n as nat);
        }
        while k < steps
            invariant
                n == self.lines@.len(),
                n >= 1,
                self.wf(),
                k <= steps,
                steps as int == if up { -(dy as int) } else { dy as int },
                self.selection as int == (start + if up { -(k as int) } else { k as int }) % (n as int),
                *self == (Tree { selection: self.selection, ..*old(self) }),
            decreases steps - k,
        {
            let ghost x = start + if up { -(k as int) } else { k as int };
            if up {
                proof {
                    lemma_sub_mod_noop(x, 1, n as int);
                    if n > 1 {
                        lemma_small_mod(1, n as nat);
                    }
                }
                if self.selection == 0 {
                    self.selection = n - 1;
                    proof {
                        lemma_small_mod((n - 1) as nat, n as nat);
                        assert((-1int) % (n as int) == n - 1) by {
                            vstd::arithmetic::div_mod::lemma_mod_sub_multiples_vanish(n - 1, n as int);
                        }
                    }
                } else {
                    self.selection = self.selection - 1;
                    proof {
                        lemma_small_mod(self.selection as nat, n as nat);
                    }
                }
            } else {
                proof {
                    lemma_add_mod_noop(x, 1, n as int);
                    if n > 1 {
                        lemma_small_mod(1, n as nat);
                    }
                }
                if self.selection + 1 == n {
                    self.selection = 0;
                    proof {
                        vstd::arithmetic::div_mod::lemma_mod_self_0(n as int);
                    }
                } else {
                    self.selection = self.selection + 1;
                    proof {
                        lemma_small_mod(self.selection as nat, n as nat);
                    }
                }
            }
            k = k + 1;
        }
        self.make_selection_visible(page_height);
    }

    /// Selects the root line and scrolls to the top.
    pub fn try_select_first(&mut self)
        requires
            old(self).wf(),
        ensures
            *final(self) == (Tree { selection: 0, scroll: 0, ..*old(self) }),
            final(self).wf(),
    {
        self.selection = 0;
        self.scroll = 0;
    }

    /// Selects the last line and brings it into view.
    pub fn try_select_last(&mut self, page_height: i32)
        requires
            old(self).wf(),
        ensures
            final(self).wf(),
            final(self).selection == old(self).lines@.len() - 1,
            final(self).scroll as int == scroll_to_show(
                old(self).scroll as int,
                old(self).lines@.len() - 1,
                rows(page_height),
            ),
            *final(self) == (Tree {
                selection: (old(self).lines@.len() - 1) as usize,
                scroll: scroll_to_show(
                    old(self).scroll as int,
                    old(self).lines@.len() - 1,
                    rows(page_height),
                ) as usize,
                ..*old(self)
            }),
    {
        self.selection = self.lines.len() - 1;
        self.make_selection_visible(page_height);
    }

    /// Selects the line at row `y` of the view, if there is one.
    pub fn try_select_y(&mut self, y: i32)
        requires
            old(self).wf(),
        ensures
            final(self).wf(),
            *final(self) == if 0 <= y && old(self).scroll + y < old(self).lines@.len() {
                Tree { selection: (old(self).scroll + y) as usize, ..*old(self) }
            } else {
                *old(self)
            },
    {
        if y >= 0 && (y as usize) < self.lines.len() - self.scroll {
            self.selection = self.scroll + y as usize;
        }
    }

    /// Scrolls the view by `dy` rows, within the lines, and keeps the
    /// selection inside the view.
    pub fn try_scroll(&mut self, dy: i32, page_height: i32)
        requires
            old(self).wf(),
        ensures
            final(self).wf(),
            *final(self) == (Tree { selection: final(self).selection, scroll: final(self).scroll, ..*old(self) }),
            final(self).scroll as int == clamp_scroll(
                old(self).scroll + dy,
                old(self).lines@.len() as int,
                rows(page_height),
            ),
            final(self).scroll <= final(self).selection,
            final(self).selection < final(self).scroll + rows(page_height),
            final(self).selection as int == select_in_view(
                old(self).selection as int,
                final(self).scroll as int,
                rows(page_height),
            ),
    {
        let n = self.lines.len();
        let ph: usize = if page_height < 1 {
            1
        } else {
            page_height as usize
        };
        let top: usize = if n > ph {
            n - ph
        } else {
            0
        };
        let new_scroll: usize = if dy < 0 {
            let d = (0i64 - dy as i64) as usize;
            let v = if d > self.scroll {
                0
            } else {
                self.scroll - d
            };
            if v > top {
                top
            } else {
                v
            }
        } else {
            let d = dy as usize;
            if d > top || self.scroll > top - d {
                top
            } else {
                self.scroll + d
            }
        };
        assert(n as int <= usize::MAX);
        self.scroll = new_scroll;
        if self.selection < self.scroll {
            self.selection = self.scroll;
        } else if self.selection - self.scroll >= ph {
            self.selection = self.scroll + ph - 1;
        }
    }

    /// The first matching line in `[a, b)`.
    fn first_match_exec(&self, a: usize, b: usize) -> (r: Option<usize>)
        requires
            a <= b <= self.lines@.len(),
        ensures
            r matches Some(k) ==> first_match_in(self.lines@, a as int, b as int) == Some(k as int),
            r is None ==> first_match_in(self.lines@, a as int, b as int) is None,
    {
        let mut k = a;
        while k < b
            invariant
                a <= k <= b,
                b <= self.lines@.len(),
                first_match_in(self.lines@, a as int, b as int) == first_match_in(self.lines@, k as int, b as int),
            decreases b - k,
        {
            if self.lines[k].direct_match {
                return Some(k);
            }
            k = k + 1;
        }
        None
    }

    /// The last matching line in `[a, b)`.
    fn last_match_exec(&self, a: usize, b: usize) -> (r: Option<usize>)
        requires
            a <= b <= self.lines@.len(),
        ensures
            r matches Some(k) ==> last_match_in(self.lines@, a as int, b as int) == Some(k as int),
            r is None ==> last_match_in(self.lines@, a as int, b as int) is None,
    {
        let mut k = b;
        while k > a
            invariant
                a <= k <= b,
                b <= self.lines@.len(),
                last_match_in(self.lines@, a as int, b as int) == last_match_in(self.lines@, a as int, k as int),
            decreases k - a,
        {
            if self.lines[k - 1].direct_match {
                return Some(k - 1);
            }
            k = k - 1;
        }
        None
    }

    /// Selects the next matching line after the selection, wrapping around;
    /// nothing changes where no line matches.
    pub fn try_select_next_match(&mut self)
        requires
            old(self).wf(),
        ensures
            final(self).wf(),
            *final(self) == match first_match_in(
                old(self).lines@,
                old(self).selection + 1,
                old(self).lines@.len() as int,
            ) {
                Some(k) => Tree { selection: k as usize, ..*old(self) },
                None => match first_match_in(old(self).lines@, 0, old(self).selection + 1) {
                    Some(k) => Tree { selection: k as usize, ..*old(self) },
                    None => *old(self),
                },
            },
    {
        proof {
            lemma_first_match_in_range(self.lines@, self.selection + 1, self.lines@.len() as int);
            lemma_first_match_in_range(self.lines@, 0, self.selection + 1);
        }
        let n = self.lines.len();
        match self.first_match_exec(self.selection + 1, n) {
            Some(k) => {
                self.selection = k;
            },
            None => match self.first_match_exec(0, self.selection + 1) {
                Some(k) => {
                    self.selection = k;
                },
                None => {},
            },
        }
    }

    /// Selects the previous matching line before the selection, wrapping
    /// around; nothing changes where no line matches.
    pub fn try_select_previous_match(&mut self)
        requires
            old(self).wf(),
        ensures
            final(self).wf(),
            *final(self) == match last_match_in(old(self).lines@, 0, old(self).selection as int) {
                Some(k) => Tree { selection: k as usize, ..*old(self) },
                None => match last_match_in(
                    old(self).lines@,
                    old(self).selection as int,
                    old(self).lines@.len() as int,
                ) {
                    Some(k) => Tree { selection: k as usize, ..*old(self) },
                    None => *old(self),
                },
            },
    {
        proof {
            lemma_last_match_in_range(self.lines@, 0, self.selection as int);
            lemma_last_match_in_range(self.lines@, self.selection as int, self.lines@.len() as int);
        }
        match self.last_match_exec(0, self.selection) {
            Some(k) => {
                self.selection = k;
            },
            None => match self.last_match_exec(self.selection, self.lines.len()) {
                Some(k) => {
                    self.selection = k;
                },
                None => {},
            },
        }
    }

    /// Selects the matching line of best score, the first one among equals;
    /// nothing changes where no line matches.
    pub fn try_select_best_match(&mut self)
        requires
            old(self).wf(),
        ensures
            final(self).wf(),
            *final(self) == (Tree { selection: final(self).selection, ..*old(self) }),
            (forall|k: int| 0 <= k < old(self).lines@.len() ==> !(#[trigger] old(self).lines@[k]).direct_match)
                ==> final(self).selection == old(self).selection,
            (exists|k: int| 0 <= k < old(self).lines@.len() && (#[trigger] old(self).lines@[k]).direct_match)
                ==> {
                let b = final(self).selection as int;
                &&& final(self).lines@[b].direct_match
                &&& forall|k: int| 0 <= k < final(self).lines@.len() && (#[trigger] final(self).lines@[k]).direct_match
                    ==> final(self).lines@[k].score <= final(self).lines@[b].score
                &&& forall|k: int| 0 <= k < b && (#[trigger] final(self).lines@[k]).direct_match
                    ==> final(self).lines@[k].score < final(self).lines@[b].score
            },
    {
        let n = self.lines.len();
        let mut best: Option<usize> = None;
        let mut k: usize = 0;
        while k < n
            invariant
                n == self.lines@.len(),
                k <= n,
                best is None ==> forall|j: int| 0 <= j < k ==> !(#[trigger] self.lines@[j]).direct_match,
                best matches Some(b) ==> {
                    &&& b < k
                    &&& self.lines@[b as int].direct_match
                    &&& forall|j: int| 0 <= j < k && (#[trigger] self.lines@[j]).direct_match
                        ==> self.lines@[j].score <= self.lines@[b as int].score
                    &&& forall|j: int| 0 <= j < b && (#[trigger] self.lines@[j]).direct_match
                        ==> self.lines@[j].score < self.lines@[b as int].score
                },
            decreases n - k,
        {
            if self.lines[k].direct_match {
                match best {
                    None => {
                        best = Some(k);
                    },
                    Some(b) => {
                        if self.lines[k].score > self.lines[b].score {
                            best = Some(k);
                        }
                    },
                }
            }
            k = k + 1;
        }
        match best {
            Some(b) => {
                self.selection = b;
            },
            None => {},
        }
    }

    /// Selects the first line showing snapshot entry `entry`; nothing changes
    /// where no line shows it.
    pub fn try_select_entry(&mut self, entry: usize)
        requires
            old(self).wf(),
        ensures
            final(self).wf(),
            *final(self) == match first_line_of(old(self).lines@, entry as int, old(self).lines@.len() as int) {
                Some(k) => Tree { selection: k as usize, ..*old(self) },
                None => *old(self),
            },
    {
        let n = self.lines.len();
        let mut k: usize = 0;
        while k < n
            invariant
                n == self.lines@.len(),
                k <= n,
                self.wf(),
                *self == *old(self),
                first_line_of(self.lines@, entry as int, k as int) is None,
            decreases n - k,
        {
            if self.lines[k].entry == entry {
                proof {
                    lemma_first_line_of_stable(self.lines@, entry as int, k + 1, n as int);
                }
                self.selection = k;
                return;
            }
            k = k + 1;
        }
    }

    /// Whether the options ask for directory figures.
    pub open spec fn needs_sum(&self) -> bool {
        self.options.show_sizes || self.options.show_counts || self.options.sort == Sort::Size
            || self.options.sort == Sort::Count
    }

    /// Whether some directory line still lacks its figures, when they are asked for.
    pub open spec fn missing_sum(&self) -> bool {
        self.needs_sum() && exists|k: int|
            0 <= k < self.lines@.len() && dir_like((#[trigger] self.lines@[k]).line_type) && self.lines@[k].sum is None
    }

    /// The first directory line that lacks its figures.
    fn first_missing_sum(&self) -> (r: Option<usize>)
        ensures
            r matches Some(k) ==> k < self.lines@.len() && dir_like(self.lines@[k as int].line_type)
                && self.lines@[k as int].sum is None,
            r is None ==> forall|k: int|
                0 <= k < self.lines@.len() ==> !(dir_like((#[trigger] self.lines@[k]).line_type) && self.lines@[k].sum is None),
    {
        let n = self.lines.len();
        let mut k: usize = 0;
        while k < n
            invariant
                n == self.lines@.len(),
                k <= n,
                forall|j: int|
                    0 <= j < k ==> !(dir_like((#[trigger] self.lines@[j]).line_type) && self.lines@[j].sum is None),
            decreases n - k,
        {
            if self.lines[k].line_type.is_dir_like() && self.lines[k].sum.is_none() {
                return Some(k);
            }
            k = k + 1;
        }
        None
    }

    pub fn has_dir_missing_sum(&self) -> (r: bool)
        ensures
            r == self.missing_sum(),
    {
        let needs = self.options.show_sizes || self.options.show_counts || self.options.sort
            == Sort::Size || self.options.sort == Sort::Count;
        needs && self.first_missing_sum().is_some()
    }

    /// Whether version-control figures are asked for and not yet there.
    pub open spec fn missing_git_status(&self) -> bool {
        self.options.show_git_file_info && self.git_status is None
    }

    pub fn is_missing_git_status_computation(&self) -> (r: bool)
        ensures
            r == self.missing_git_status(),
    {
        self.options.show_git_file_info && self.git_status.is_none()
    }
}

proof fn lemma_first_match_in_range(lines: Seq<TreeLine>, a: int, b: int)
    ensures
        first_match_in(lines, a, b) matches Some(k) ==> a <= k < b && lines[k].direct_match,
    decreases b - a,
{
    if a < b && !lines[a].direct_match {
        lemma_first_match_in_range(lines, a + 1, b);
    }
}

proof fn lemma_last_match_in_range(lines: Seq<TreeLine>, a: int, b: int)
    ensures
        last_match_in(lines, a, b) matches Some(k) ==> a <= k < b && lines[k].direct_match,
    decreases b - a,
{
    if a < b && !lines[b - 1].direct_match {
        lemma_last_match_in_range(lines, a, b - 1);
    }
}

/// Once found within the first `k` lines, the first line of an entry stays.
proof fn lemma_first_line_of_stable(lines: Seq<TreeLine>, e: int, k: int, m: int)
    requires
        k <= m,
        first_line_of(lines, e, k) is Some,
    ensures
        first_line_of(lines, e, m) == first_line_of(lines, e, k),
        first_line_of(lines, e, m) matches Some(x) ==> 0 <= x < k,
    decreases m - k,
{
    if k < m {
        lemma_first_line_of_stable(lines, e, k, m - 1);
    } else {
        lemma_first_line_of_in(lines, e, k);
    }
}

proof fn lemma_first_line_of_in(lines: Seq<TreeLine>, e: int, k: int)
    ensures
        first_line_of(lines, e, k) matches Some(x) ==> 0 <= x < k,
    decreases k,
{
    if k > 0 {
        lemma_first_line_of_in(lines, e, k - 1);
    }
}

/// Whether entry `j` lies in the subtree of entry `e` (itself included).
pub open spec fn is_desc(s: Seq<FsEntry>, j: int, e: int) -> bool
    decreases j,
{
    if j == e {
        true
    } else if 0 < j < s.len() && s[j].parent < j {
        is_desc(s, s[j].parent as int, e)
    } else {
        false
    }
}

/// The number of strict descendants of `e` below index `k`.
pub open spec fn subtree_count(s: Seq<FsEntry>, e: int, k: int) -> nat
    decreases k,
{
    if k <= 0 {
        0
    } else {
        subtree_count(s, e, k - 1) + if k - 1 != e && is_desc(s, k - 1, e) {
            1nat
        } else {
            0nat
        }
    }
}

/// The total size of the subtree of `e` below index `k`, saturating at `u64::MAX`.
pub open spec fn subtree_size(s: Seq<FsEntry>, e: int, k: int) -> nat
    decreases k,
{
    if k <= 0 {
        0
    } else {
        let t = subtree_size(s, e, k - 1) + if is_desc(s, k - 1, e) {
            s[k - 1].size as nat
        } else {
            0nat
        };
        if t > u64::MAX {
            u64::MAX as nat
        } else {
            t
        }
    }
}

/// The figures of entry `e`'s subtree.
pub open spec fn dir_sum(s: Seq<FsEntry>, e: int) -> FileSum {
    FileSum {
        size: subtree_size(s, e, s.len() as int) as u64,
        count: subtree_count(s, e, s.len() as int) as usize,
    }
}

proof fn lemma_desc_not_before(s: Seq<FsEntry>, j: int, e: int)
    requires
        is_desc(s, j, e),
    ensures
        j >= e,
    decreases j,
{
    if j != e {
        lemma_desc_not_before(s, s[j].parent as int, e);
    }
}

proof fn lemma_subtree_count_bound(s: Seq<FsEntry>, e: int, k: int)
    ensures
        subtree_count(s, e, k) <= if k < 0 { 0 } else { k },
    decreases k,
{
    if k > 0 {
        lemma_subtree_count_bound(s, e, k - 1);
    }
}

fn is_desc_exec(fs: &FsSnapshot, j: usize, e: usize) -> (r: bool)
    requires
        fs.wf(),
        j < fs.entries@.len(),
    ensures
        r == is_desc(fs.entries@, j as int, e as int),
{
    let ghost s = fs.entries@;
    let mut cur = j;
    while cur > e
        invariant
            fs.wf(),
            s == fs.entries@,
            cur < s.len(),
            is_desc(s, j as int, e as int) == is_desc(s, cur as int, e as int),
        decreases cur,
    {
        cur = fs.entries[cur].parent;
    }
    proof {
        if cur < e && is_desc(s, cur as int, e as int) {
            lemma_desc_not_before(s, cur as int, e as int);
        }
    }
    cur == e
}

/// The figures of entry `e`'s subtree.
fn dir_sum_exec(fs: &FsSnapshot, e: usize) -> (r: FileSum)
    requires
        fs.wf(),
    ensures
        r == dir_sum(fs.entries@, e as int),
{
    let ghost s = fs.entries@;
    let n = fs.entries.len();
    let mut size: u64 = 0;
    let mut count: usize = 0;
    let mut j: usize = 0;
    while j < n
        invariant
            fs.wf(),
            s == fs.entries@,
            n == s.len(),
            j <= n,
            size as nat == subtree_size(s, e as int, j as int),
            count as nat == subtree_count(s, e as int, j as int),
        decreases n - j,
    {
        proof {
            lemma_subtree_count_bound(s, e as int, j as int);
        }
        if is_desc_exec(fs, j, e) {
            size = size.saturating_add(fs.entries[j].size);
            if j != e {
                count = count + 1;
            }
        }
        j = j + 1;
    }
    FileSum { size, count }
}

impl Tree {
    /// Whether every line shows an entry of the snapshot.
    pub open spec fn lines_in(&self, fs: FsSnapshot) -> bool {
        forall|k: int| 0 <= k < self.lines@.len() ==> (#[trigger] self.lines@[k]).entry < fs.entries@.len()
    }

    /// Computes the figures of one directory line that lacks them, unless the
    /// dam interrupts first; returns the line filled.
    pub fn fetch_some_missing_dir_sum(&mut self, fs: &FsSnapshot, dam: &mut Dam) -> (r: Option<usize>)
        requires
            old(self).wf(),
            fs.wf(),
            old(self).lines_in(*fs),
        ensures
            final(self).wf(),
            final(self).lines_in(*fs),
            old(dam).interrupts_within(1) ==> *final(self) == *old(self) && r is None
                && *final(dam) == old(dam).tripped(),
            !old(dam).interrupts_within(1) ==> *final(dam) == old(dam).after(1),
            r is None && !old(dam).interrupts_within(1) ==> *final(self) == *old(self)
                && forall|k: int| 0 <= k < old(self).lines@.len() ==> !(dir_like((#[trigger] old(self).lines@[k]).line_type)
                && old(self).lines@[k].sum is None),
            r matches Some(k) ==> {
                &&& k < old(self).lines@.len()
                &&& dir_like(old(self).lines@[k as int].line_type)
                &&& old(self).lines@[k as int].sum is None
                &&& final(self).lines@ == old(self).lines@.update(k as int, TreeLine {
                    sum: Some(dir_sum(fs.entries@, old(self).lines@[k as int].entry as int)),
                    ..old(self).lines@[k as int]
                })
                &&& *final(self) == (Tree { lines: final(self).lines, ..*old(self) })
            },
    {
        if dam.checkpoint() {
            return None;
        }
        match self.first_missing_sum() {
            None => None,
            Some(k) => {
                let sum = dir_sum_exec(fs, self.lines[k].entry);
                let mut line = self.lines.remove(k);
                line.sum = Some(sum);
                self.lines.insert(k, line);
                proof {
                    assert(self.lines@ =~= old(self).lines@.update(k as int, self.lines@[k as int]));
                }
                Some(k)
            },
        }
    }
}

} // verus!
