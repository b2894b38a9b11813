//! Builds the displayed tree out of a filesystem snapshot: filters, pattern,
//! line budget, and checkpoints on the cancellation token.

use vstd::prelude::*;
use crate::dam::{lemma_after_step, lemma_interrupts_monotone, Dam};
use crate::tree::{
    dir_like, entries_wf, FsEntry, FsSnapshot, Tree, TreeLine, TreeLineType, TreeOptions,
};

verus! {

/// Why no tree can be built.
#[derive(Clone, Copy, Debug, PartialEq, Eq, Structural)]
pub enum TreeBuildError {
    /// Nothing was found at the root's path.
    NotFound,
    /// The root is not a directory.
    NotADirectory,
    /// The line budget leaves no room for the root line.
    NoRoom,
}

/// A name that starts with a dot is hidden.
pub open spec fn is_hidden(name: Seq<char>) -> bool {
    name.len() > 0 && name[0] == '.'
}

/// Whether the options let an entry through, its ancestors aside. Hidden
/// entries pass when they are shown, or while the version-control filter is on.
pub open spec fn passes_filters(e: FsEntry, o: TreeOptions) -> bool {
    &&& (o.show_hidden || o.filter_by_git_status || !is_hidden(e.name@))
    &&& (!o.only_folders || dir_like(e.line_type))
    &&& (!o.respect_git_ignore || !e.ignored)
}

/// Whether an entry and all its ancestors pass the filters (the root always does).
pub open spec fn shown(s: Seq<FsEntry>, o: TreeOptions, i: int) -> bool
    decreases i,
{
    if i <= 0 {
        i == 0
    } else if i < s.len() && s[i].parent < i {
        shown(s, o, s[i].parent as int) && passes_filters(s[i], o)
    } else {
        false
    }
}

/// Whether an active pattern matches the entry's own name.
pub open spec fn direct_match(s: Seq<FsEntry>, o: TreeOptions, i: int) -> bool {
    o.pattern.is_active() && o.pattern.score_spec(s[i].name@) is Some
}

/// Whether a non-root entry gets a line: it is shown and, under an active
/// pattern, it matches or one of its children gets a line.
pub open spec fn kept(s: Seq<FsEntry>, o: TreeOptions, i: int) -> bool
    decreases 2 * (s.len() - i) + 1,
{
    if 0 < i < s.len() {
        shown(s, o, i) && (!o.pattern.is_active() || direct_match(s, o, i) || kept_child_from(
            s,
            o,
            i,
            i + 1,
        ))
    } else {
        false
    }
}

/// Whether a child of entry `i`, at index `c` or later, gets a line.
pub open spec fn kept_child_from(s: Seq<FsEntry>, o: TreeOptions, i: int, c: int) -> bool
    decreases 2 * (s.len() - c) + 2,
{
    if 0 < c < s.len() {
        (s[c].parent == i && kept(s, o, c)) || kept_child_from(s, o, i, c + 1)
    } else {
        false
    }
}

/// The kept entries below index `k`, in order.
pub open spec fn kept_upto(s: Seq<FsEntry>, o: TreeOptions, k: int) -> Seq<int>
    decreases k,
{
    if k <= 1 {
        Seq::empty()
    } else {
        kept_upto(s, o, k - 1) + if kept(s, o, k - 1) {
            seq![k - 1]
        } else {
            Seq::empty()
        }
    }
}

pub open spec fn kept_entries(s: Seq<FsEntry>, o: TreeOptions) -> Seq<int> {
    kept_upto(s, o, s.len() as int)
}

/// The number of directory-like entries below index `k`: one checkpoint each.
pub open spec fn dir_count(s: Seq<FsEntry>, k: int) -> nat
    decreases k,
{
    if k <= 0 {
        0
    } else {
        dir_count(s, k - 1) + if dir_like(s[k - 1].line_type) {
            1nat
        } else {
            0nat
        }
    }
}

/// How many kept entries get a line of their own.
pub open spec fn shown_count(n_kept: nat, max_lines: nat, total: bool) -> nat {
    if total || n_kept + 1 <= max_lines {
        n_kept
    } else if max_lines >= 2 {
        (max_lines - 2) as nat
    } else {
        0
    }
}

/// Whether a pruning line stands for the kept entries left out.
pub open spec fn pruned(n_kept: nat, max_lines: nat, total: bool) -> bool {
    !total && n_kept + 1 > max_lines && max_lines >= 2
}

/// Whether a line shows entry `i`, as built.
pub open spec fn line_shows(l: TreeLine, s: Seq<FsEntry>, o: TreeOptions, i: int) -> bool {
    &&& l.entry == i
    &&& l.name == s[i].name
    &&& l.depth == s[i].depth
    &&& l.line_type == s[i].line_type
    &&& l.is_exe == s[i].is_exe
    &&& l.sum is None
    &&& l.direct_match == direct_match(s, o, i)
    &&& (l.direct_match ==> o.pattern.score_spec(s[i].name@) == Some(l.score as nat))
    &&& (!l.direct_match ==> l.score == 0)
}

/// Whether `t` is the tree built from `fs` with these options and budget.
pub open spec fn built_from(
    t: Tree,
    fs: FsSnapshot,
    o: TreeOptions,
    max_lines: nat,
    total: bool,
) -> bool {
    let s = fs.entries@;
    let ks = kept_entries(s, o);
    let m = shown_count(ks.len(), max_lines, total);
    &&& t.wf()
    &&& t.root@ == fs.root@
    &&& t.options == o
    &&& t.selection == 0
    &&& t.scroll == 0
    &&& t.git_status is None
    &&& t.total_search == (total || ks.len() + 1 <= max_lines)
    &&& t.lines@.len() == 1 + m + if pruned(ks.len(), max_lines, total) {
        1nat
    } else {
        0nat
    }
    &&& line_shows(t.lines@[0], s, o, 0)
    &&& forall|k: int| 0 <= k < m ==> line_shows(#[trigger] t.lines@[k + 1], s, o, ks[k])
    &&& pruned(ks.len(), max_lines, total) ==> t.lines@[m + 1int].line_type == (TreeLineType::Pruning {
        count: (ks.len() - m) as usize,
    })
}

/// Options and a line budget, checked against a snapshot.
#[derive(Debug)]
pub struct TreeBuilder {
    pub options: TreeOptions,
    pub max_lines: usize,
}

proof fn lemma_dir_count_monotone(s: Seq<FsEntry>, a: int, b: int)
    requires
        a <= b,
    ensures
        dir_count(s, a) <= dir_count(s, b),
    decreases b - a,
{
    if a < b {
        lemma_dir_count_monotone(s, a, b - 1);
    }
}

fn is_hidden_exec(name: &String) -> (r: bool)
    ensures
        r == is_hidden(name@),
{
    let s = name.as_str();
    s.unicode_len() > 0 && s.get_char(0) == '.'
}

fn passes_filters_exec(e: &FsEntry, o: &TreeOptions) -> (r: bool)
    ensures
        r == passes_filters(*e, *o),
{
    (o.show_hidden || o.filter_by_git_status || !is_hidden_exec(&e.name)) && (!o.only_folders || e.line_type.is_dir_like())
        && (!o.respect_git_ignore || !e.ignored)
}

impl TreeBuilder {
    /// Whether the builder can build on this snapshot.
    pub open spec fn ready_for(&self, fs: FsSnapshot) -> bool {
        &&& fs.wf()
        &&& fs.entries@.len() >= 1
        &&& dir_like(fs.entries@[0].line_type)
        &&& self.max_lines >= 1
        &&& self.options.wf()
    }

    /// Checks a snapshot and a budget before any build.
    pub fn from(fs: &FsSnapshot, options: TreeOptions, max_lines: usize) -> (r: Result<
        TreeBuilder,
        TreeBuildError,
    >)
        requires
            fs.wf(),
            options.wf(),
        ensures
            fs.entries@.len() == 0 <==> r == Err::<TreeBuilder, _>(TreeBuildError::NotFound),
            fs.entries@.len() > 0 && !dir_like(fs.entries@[0].line_type) <==> r == Err::<
                TreeBuilder,
                _,
            >(TreeBuildError::NotADirectory),
            fs.entries@.len() > 0 && dir_like(fs.entries@[0].line_type) && max_lines == 0 <==> r
                == Err::<TreeBuilder, _>(TreeBuildError::NoRoom),
            r is Ok <==> fs.entries@.len() > 0 && dir_like(fs.entries@[0].line_type) && max_lines > 0,
            r matches Ok(b) ==> b.options == options && b.max_lines == max_lines && b.ready_for(
                *fs,
            ),
    {
        if fs.entries.len() == 0 {
            Err(TreeBuildError::NotFound)
        } else if !fs.entries[0].line_type.is_dir_like() {
            Err(TreeBuildError::NotADirectory)
        } else if max_lines == 0 {
            Err(TreeBuildError::NoRoom)
        } else {
            Ok(TreeBuilder { options, max_lines })
        }
    }

    /// Builds the tree, or nothing when the dam interrupts: one checkpoint
    /// per directory-like entry. Without `total`, the tree holds at most
    /// `max_lines` lines: the kept entries that do not fit are counted in one
    /// pruning line at the end. Lines keep the snapshot's order, in which the
    /// reader lists siblings; the sort option is carried for the display and
    /// for that reader, and does not reorder lines here.
    pub fn build(&self, fs: &FsSnapshot, total: bool, dam: &mut Dam) -> (r: Option<Tree>)
        requires
            self.ready_for(*fs),
        ensures
            r is None <==> old(dam).interrupts_within(dir_count(fs.entries@, fs.entries@.len() as int)),
            r is Some ==> *final(dam) == old(dam).after(dir_count(fs.entries@, fs.entries@.len() as int)),
            r matches Some(t) ==> built_from(t, *fs, self.options, self.max_lines as nat, total),
            r matches Some(t) ==> t.lines_in(*fs),
    {
        let ghost s = fs.entries@;
        let ghost o = self.options;
        let ghost d0 = *dam;
        let n = fs.entries.len();
        let active = self.options.pattern.is_some();
        let mut shown_v: Vec<bool> = Vec::new();
        let mut direct_v: Vec<bool> = Vec::new();
        let mut score_v: Vec<usize> = Vec::new();
        let mut i: usize = 0;
        while i < n
            invariant
                n == s.len(),
                s == fs.entries@,
                o == self.options,
                self.ready_for(*fs),
                d0 == *old(dam),
                active == o.pattern.is_active(),
                i <= n,
                shown_v@.len() == i,
                direct_v@.len() == i,
                score_v@.len() == i,
                forall|x: int| 0 <= x < i ==> shown_v@[x] == shown(s, o, x),
                forall|x: int| 0 <= x < i && shown_v@[x] ==> direct_v@[x] == direct_match(s, o, x),
                forall|x: int| 0 <= x < i && shown_v@[x] && direct_v@[x] ==>
                    o.pattern.score_spec(s[x].name@) == Some(score_v@[x] as nat),
                forall|x: int| 0 <= x < i && !(shown_v@[x] && direct_v@[x]) ==> score_v@[x] == 0,
                !d0.interrupts_within(dir_count(s, i as int)),
                *dam == d0.after(dir_count(s, i as int)),
            decreases n - i,
        {
            let e = &fs.entries[i];
            let ghost dc = dir_count(s, i as int);
            assert(dir_count(s, i + 1) == dc + if dir_like(s[i as int].line_type) {
                1nat
            } else {
                0nat
            });
            if e.line_type.is_dir_like() {
                proof {
                    lemma_after_step(d0, dc);
                }
                if dam.checkpoint() {
                    proof {
                        assert(d0.interrupts_within(dc + 1));
                        lemma_dir_count_monotone(s, i + 1, n as int);
                        lemma_interrupts_monotone(d0, dc + 1, dir_count(s, n as int));
                        assert(d0.interrupts_within(dir_count(s, n as int)));
                        assert(d0 == *old(dam));
                    }
                    return None;
                }
            }
            let sh = if i == 0 {
                true
            } else {
                shown_v[e.parent] && passes_filters_exec(e, &self.options)
            };
            let mut dm = false;
            let mut sc: usize = 0;
            if sh && active {
                match self.options.pattern.score_of(e.name.as_str()) {
                    Some(v) => {
                        dm = true;
                        sc = v;
                    },
                    None => {},
                }
            }
            shown_v.push(sh);
            direct_v.push(dm);
            score_v.push(sc);
            i = i + 1;
        }
        assert forall|x: int| 0 <= x < n implies !kept_child_from(s, o, x, n as int) by {}
        let mut keep_v: Vec<bool> = Vec::new();
        let mut child_v: Vec<bool> = Vec::new();
        let mut j: usize = 0;
        while j < n
            invariant
                j <= n,
                keep_v@.len() == j,
                child_v@.len() == j,
                forall|x: int| 0 <= x < j ==> !keep_v@[x] && !child_v@[x],
            decreases n - j,
        {
            keep_v.push(false);
            child_v.push(false);
            j = j + 1;
        }
        let mut i: usize = n;
        while i > 1
            invariant
                n == s.len(),
                s == fs.entries@,
                o == self.options,
                self.ready_for(*fs),
                active == o.pattern.is_active(),
                1 <= i <= n,
                shown_v@.len() == n,
                direct_v@.len() == n,
                keep_v@.len() == n,
                child_v@.len() == n,
                forall|x: int| 0 <= x < n ==> shown_v@[x] == shown(s, o, x),
                forall|x: int| 0 <= x < n && shown_v@[x] ==> direct_v@[x] == direct_match(s, o, x),
                forall|x: int| i <= x < n ==> keep_v@[x] == kept(s, o, x),
                forall|x: int| 0 <= x < i ==> child_v@[x] == kept_child_from(s, o, x, i as int),
            decreases i,
        {
            i = i - 1;
            let k = shown_v[i] && (!active || direct_v[i] || child_v[i]);
            assert(k == kept(s, o, i as int));
            keep_v.set(i, k);
            let ghost old_child = child_v@;
            if k {
                let p = fs.entries[i].parent;
                child_v.set(p, true);
            }
            assert forall|x: int| 0 <= x < i implies child_v@[x] == kept_child_from(
                s,
                o,
                x,
                i as int,
            ) by {
                assert(kept_child_from(s, o, x, i as int) == ((s[i as int].parent == x && kept(
                    s,
                    o,
                    i as int,
                )) || kept_child_from(s, o, x, i + 1)));
            }
        }
        let mut ks: Vec<usize> = Vec::new();
        let mut j: usize = 1;
        while j < n
            invariant
                n == s.len(),
                1 <= j <= n,
                keep_v@.len() == n,
                forall|x: int| 1 <= x < n ==> keep_v@[x] == kept(s, o, x),
                ks@.len() == kept_upto(s, o, j as int).len(),
                forall|t: int| 0 <= t < ks@.len() ==> ks@[t] as int == kept_upto(s, o, j as int)[t],
                forall|t: int| 0 <= t < ks@.len() ==> 0 < #[trigger] ks@[t] && ks@[t] < j,
            decreases n - j,
        {
            if keep_v[j] {
                ks.push(j);
            }
            j = j + 1;
        }
        assert(kept_upto(s, o, n as int) == kept_entries(s, o));
        let ghost kseq = kept_entries(s, o);
        let nk = ks.len();
        let max = self.max_lines;
        let fits = total || nk < max;
        let m: usize = if fits {
            nk
        } else if max >= 2 {
            max - 2
        } else {
            0
        };
        let mut lines: Vec<TreeLine> = Vec::new();
        lines.push(self.line_for(fs, 0, direct_v[0], score_v[0]));
        let mut t: usize = 0;
        while t < m
            invariant
                n == s.len(),
                s == fs.entries@,
                o == self.options,
                self.ready_for(*fs),
                m <= nk,
                kseq == kept_entries(s, o),
                nk == ks@.len(),
                ks@.len() == kseq.len(),
                forall|u: int| 0 <= u < ks@.len() ==> ks@[u] as int == kseq[u],
                forall|u: int| 0 <= u < ks@.len() ==> 0 < #[trigger] ks@[u] && ks@[u] < n,
                shown_v@.len() == n,
                direct_v@.len() == n,
                score_v@.len() == n,
                forall|x: int| 0 <= x < n ==> shown_v@[x] == shown(s, o, x),
                forall|x: int| 0 <= x < n && shown_v@[x] ==> direct_v@[x] == direct_match(s, o, x),
                forall|x: int| 0 <= x < n && shown_v@[x] && direct_v@[x] ==>
                    o.pattern.score_spec(s[x].name@) == Some(score_v@[x] as nat),
                forall|x: int| 0 <= x < n && !(shown_v@[x] && direct_v@[x]) ==> score_v@[x] == 0,
                forall|x: int| 1 <= x < n ==> keep_v@[x] == kept(s, o, x),
                keep_v@.len() == n,
                t <= m,
                lines@.len() == t + 1,
                forall|u: int| 0 <= u < lines@.len() ==> (#[trigger] lines@[u]).entry < n,
                line_shows(lines@[0], s, o, 0),
                forall|u: int| 0 <= u < t ==> line_shows(#[trigger] lines@[u + 1], s, o, kseq[u]),
            decreases m - t,
        {
            let e = ks[t];
            proof {
                lemma_kept_upto_members(s, o, n as int, t as int);
            }
            lines.push(self.line_for(fs, e, direct_v[e], score_v[e]));
            t = t + 1;
        }
        if !fits && max >= 2 {
            lines.push(
                TreeLine {
                    entry: 0,
                    name: String::new(),
                    depth: 1,
                    line_type: TreeLineType::Pruning { count: nk - m },
                    is_exe: false,
                    direct_match: false,
                    score: 0,
                    sum: None,
                },
            );
        }
        Some(
            Tree {
                root: self.root_of(fs),
                lines,
                selection: 0,
                scroll: 0,
                options: self.options.clone(),
                total_search: fits,
                git_status: None,
            },
        )
    }

    fn root_of(&self, fs: &FsSnapshot) -> (r: Vec<String>)
        ensures
            r@ == fs.root@,
    {
        fs.duplicate().root
    }

    /// The line of entry `e`, given its match verdict and score.
    fn line_for(&self, fs: &FsSnapshot, e: usize, dm: bool, sc: usize) -> (l: TreeLine)
        requires
            self.ready_for(*fs),
            e < fs.entries@.len(),
            shown(fs.entries@, self.options, e as int) ==> dm == direct_match(fs.entries@, self.options, e as int),
            shown(fs.entries@, self.options, e as int) && dm ==> self.options.pattern.score_spec(
                fs.entries@[e as int].name@,
            ) == Some(sc as nat),
            !(shown(fs.entries@, self.options, e as int) && dm) ==> sc == 0,
            shown(fs.entries@, self.options, e as int),
        ensures
            line_shows(l, fs.entries@, self.options, e as int),
    {
        let en = &fs.entries[e];
        TreeLine {
            entry: e,
            name: en.name.clone(),
            depth: en.depth,
            line_type: en.line_type.clone(),
            is_exe: en.is_exe,
            direct_match: dm,
            score: sc,
            sum: None,
        }
    }
}

/// The `t`-th kept entry is kept, and lies within the snapshot.
proof fn lemma_kept_upto_members(s: Seq<FsEntry>, o: TreeOptions, k: int, t: int)
    requires
        0 <= t < kept_upto(s, o, k).len(),
        k <= s.len(),
    ensures
        kept(s, o, kept_upto(s, o, k)[t]),
        shown(s, o, kept_upto(s, o, k)[t]),
        0 < kept_upto(s, o, k)[t] < k,
    decreases k,
{
    if k > 1 {
        if t < kept_upto(s, o, k - 1).len() {
            lemma_kept_upto_members(s, o, k - 1, t);
        }
    }
}

} // verus!
