//! The panel state machine: a base tree, an optional filtered tree, the
//! pattern waiting to be applied, and the background work between inputs.

use vstd::prelude::*;
use crate::dam::Dam;
use crate::pattern::InputPattern;
use crate::tree::{dir_like, dir_sum, rows, scroll_to_show, FsSnapshot, Sort, Tree, TreeGitStatus, TreeLine, TreeLineType, TreeOptions};
use crate::tree_build::{built_from, dir_count, TreeBuildError, TreeBuilder};

verus! {

/// The terminal area a panel is drawn in.
#[derive(Clone, Copy, Debug, PartialEq, Eq, Structural)]
pub struct Screen {
    pub width: u16,
    pub height: u16,
}

/// What a hand-off opens: a path of the snapshot, or a symbolic link's
/// target as the link holds it.
#[derive(Debug)]
pub enum LaunchPath {
    Entry(Vec<String>),
    LinkTarget(String),
}

/// How an external hand-off runs a file.
#[derive(Debug)]
pub enum Launchable {
    /// Open the file with the system's default handler.
    Opener { path: LaunchPath },
    /// Run the file as a program.
    Program { path: LaunchPath },
}

/// Side of a new panel.
#[derive(Clone, Copy, Debug, PartialEq, Eq, Structural)]
pub enum HDir {
    Left,
    Right,
}

/// What a new panel is opened for.
#[derive(Clone, Copy, Debug, PartialEq, Eq, Structural)]
pub enum PanelPurpose {
    NoPurpose,
    Preview,
    ArgEdition,
}

/// What a command asks of the application, beyond this panel's own state.
#[derive(Debug)]
pub enum AppStateCmdResult {
    /// Stay on this panel, as it now is.
    Keep,
    /// Replace this panel's state, or push it in a new panel.
    NewState { state: Box<BrowserState>, in_new_panel: bool },
    /// Read the subtree at `path` and open a state on it with `options`.
    NewRoot { path: Vec<String>, options: TreeOptions, in_new_panel: bool },
    /// Read the subtree at `path` and open it in a new panel on side `dir`.
    NewPanel { path: Vec<String>, options: TreeOptions, purpose: PanelPurpose, dir: HDir },
    /// Like `NewRoot`, on the user's home directory.
    FocusUserHome { options: TreeOptions, in_new_panel: bool },
    /// Show the help screen.
    Help { in_new_panel: bool },
    /// Let the application handle this verb (moving between panels).
    HandleInApp { internal: Internal },
    /// Close a panel (the preview one, or this one), and validate its purpose or not.
    ClosePanel { validate_purpose: bool, close_preview: bool },
    /// Open a panel for editing an argument: the path typed, taken from the root.
    NewPanelFromArg { root: Vec<String>, arg: String, options: TreeOptions },
    /// Go back to the previous panel state.
    PopState,
    /// Rebuild the state from the filesystem.
    RefreshState { clear_cache: bool },
    /// Leave the application.
    Quit,
    /// Show a message and keep the panel.
    DisplayError(String),
    /// Open a file with the default handler and stay.
    Open { path: LaunchPath },
    /// Quit, then launch.
    Launch { launchable: Launchable },
    /// Write `cd` to the path in the shell's export file, then quit.
    ExportCd { path: Vec<String> },
    /// Write the path in the shell's export file, then quit.
    ExportPath { path: LaunchPath },
    /// Put the path on the clipboard.
    CopyPath { path: Vec<String> },
    /// Print the path on leaving, absolute or relative to the root.
    PrintPath { path: Vec<String>, relative: bool },
    /// Print the displayed tree on leaving.
    PrintTree,
    /// Run an external command on the path, with the user's arguments.
    External { template: String, path: Vec<String>, args: Option<String> },
}

/// The built-in verbs.
#[derive(Clone, Copy, Debug, PartialEq, Eq, Structural)]
pub enum Internal {
    Back,
    CopyPath,
    Focus,
    FocusRoot,
    FocusUserHome,
    Help,
    UpTree,
    OpenStay,
    OpenStayFilter,
    OpenLeave,
    LineDown,
    LineUp,
    PreviousMatch,
    NextMatch,
    PageDown,
    PageUp,
    PanelLeft,
    PanelRight,
    Parent,
    PrintPath,
    PrintRelativePath,
    PrintTree,
    Refresh,
    SelectFirst,
    SelectLast,
    StartEndPanel,
    SortByCount,
    SortByDate,
    SortBySize,
    NoSort,
    ToggleCounts,
    ToggleDates,
    ToggleFiles,
    ToggleHidden,
    ToggleGitIgnore,
    ToggleGitFileInfo,
    ToggleGitStatus,
    TogglePerm,
    ToggleSizes,
    ToggleTrimRoot,
    TotalSearch,
    Quit,
}

/// The path of entry `i`: the root's path, then the names down to the entry.
pub open spec fn entry_path(fs: FsSnapshot, i: int) -> Seq<String>
    decreases i,
{
    if 0 < i < fs.entries@.len() && fs.entries@[i].parent < i {
        entry_path(fs, fs.entries@[i].parent as int).push(fs.entries@[i].name)
    } else {
        fs.root@
    }
}

/// The path of entry `i`.
pub fn path_of(fs: &FsSnapshot, i: usize) -> (r: Vec<String>)
    requires
        fs.wf(),
    ensures
        r@ == entry_path(*fs, i as int),
    decreases i,
{
    if 0 < i && i < fs.entries.len() && fs.entries[i].parent < i {
        let mut p = path_of(fs, fs.entries[i].parent);
        p.push(fs.entries[i].name.clone());
        p
    } else {
        fs.duplicate().root
    }
}

pub open spec fn toggled_sort(i: Internal, o: TreeOptions) -> Sort {
    match i {
        Internal::SortByCount => if o.sort == Sort::Count { Sort::Unsorted } else { Sort::Count },
        Internal::SortByDate => if o.sort == Sort::Date { Sort::Unsorted } else { Sort::Date },
        Internal::SortBySize => if o.sort == Sort::Size { Sort::Unsorted } else { Sort::Size },
        Internal::NoSort => Sort::Unsorted,
        _ => o.sort,
    }
}

/// A flag that a verb flips.
pub open spec fn toggled_flag(i: Internal, flag: Internal, v: bool) -> bool {
    if i == flag {
        !v
    } else {
        v
    }
}

/// What the options become under a toggling verb; other verbs leave them.
/// A sort verb switches its sort on, or off when it is on already; a sort
/// shows its own figures whatever their flag. The version-control filter
/// shows hidden files while it is on, without changing their flag.
pub open spec fn toggled(i: Internal, o: TreeOptions) -> TreeOptions {
    TreeOptions {
        sort: toggled_sort(i, o),
        show_counts: toggled_flag(i, Internal::ToggleCounts, o.show_counts),
        show_dates: toggled_flag(i, Internal::ToggleDates, o.show_dates),
        show_sizes: toggled_flag(i, Internal::ToggleSizes, o.show_sizes),
        only_folders: toggled_flag(i, Internal::ToggleFiles, o.only_folders),
        show_hidden: toggled_flag(i, Internal::ToggleHidden, o.show_hidden),
        respect_git_ignore: toggled_flag(i, Internal::ToggleGitIgnore, o.respect_git_ignore),
        show_git_file_info: toggled_flag(i, Internal::ToggleGitFileInfo, o.show_git_file_info),
        filter_by_git_status: toggled_flag(i, Internal::ToggleGitStatus, o.filter_by_git_status),
        show_permissions: toggled_flag(i, Internal::TogglePerm, o.show_permissions),
        trim_root: toggled_flag(i, Internal::ToggleTrimRoot, o.trim_root),
        pattern: o.pattern,
    }
}

fn toggled_flag_exec(i: Internal, flag: Internal, v: bool) -> (r: bool)
    ensures
        r == toggled_flag(i, flag, v),
{
    if i == flag {
        !v
    } else {
        v
    }
}

/// Whether a verb rebuilds the tree with changed options.
pub open spec fn is_toggle(internal: Internal) -> bool {
    match internal {
        Internal::SortByCount | Internal::SortByDate | Internal::SortBySize | Internal::NoSort
        | Internal::ToggleCounts | Internal::ToggleDates | Internal::ToggleFiles
        | Internal::ToggleHidden | Internal::ToggleGitIgnore | Internal::ToggleGitFileInfo
        | Internal::ToggleGitStatus | Internal::TogglePerm | Internal::ToggleSizes
        | Internal::ToggleTrimRoot => true,
        _ => false,
    }
}

/// The options under a toggling verb.
pub fn toggle_options(i: Internal, o: TreeOptions) -> (r: TreeOptions)
    ensures
        r == toggled(i, o),
{
    let sort = match i {
        Internal::SortByCount => if o.sort == Sort::Count { Sort::Unsorted } else { Sort::Count },
        Internal::SortByDate => if o.sort == Sort::Date { Sort::Unsorted } else { Sort::Date },
        Internal::SortBySize => if o.sort == Sort::Size { Sort::Unsorted } else { Sort::Size },
        Internal::NoSort => Sort::Unsorted,
        _ => o.sort,
    };
    let show_counts = toggled_flag_exec(i, Internal::ToggleCounts, o.show_counts);
    let show_dates = toggled_flag_exec(i, Internal::ToggleDates, o.show_dates);
    let show_sizes = toggled_flag_exec(i, Internal::ToggleSizes, o.show_sizes);
    let only_folders = toggled_flag_exec(i, Internal::ToggleFiles, o.only_folders);
    let show_hidden = toggled_flag_exec(i, Internal::ToggleHidden, o.show_hidden);
    let respect_git_ignore = toggled_flag_exec(i, Internal::ToggleGitIgnore, o.respect_git_ignore);
    let show_git_file_info = toggled_flag_exec(i, Internal::ToggleGitFileInfo, o.show_git_file_info);
    let filter_by_git_status = toggled_flag_exec(i, Internal::ToggleGitStatus, o.filter_by_git_status);
    let show_permissions = toggled_flag_exec(i, Internal::TogglePerm, o.show_permissions);
    let trim_root = toggled_flag_exec(i, Internal::ToggleTrimRoot, o.trim_root);
    TreeOptions {
        show_hidden,
        only_folders,
        show_counts,
        show_dates,
        show_sizes,
        show_permissions,
        show_git_file_info,
        filter_by_git_status,
        respect_git_ignore,
        trim_root,
        sort,
        pattern: o.pattern,
    }
}

/// A panel showing a tree: the first and main screen of the application.
#[derive(Debug)]
pub struct BrowserState {
    /// What was read of the filesystem under the root.
    pub fs: FsSnapshot,
    /// The base tree, built without pattern.
    pub tree: Tree,
    /// The tree filtered by the last applied pattern, if any.
    pub filtered_tree: Option<Tree>,
    /// A pattern typed and not yet applied.
    pub pending_pattern: InputPattern,
    /// Whether the pending pattern asks for a total search.
    pub total_search_required: bool,
}

/// Which background work a state still has.
#[derive(Clone, Copy, Debug, PartialEq, Eq, Structural)]
pub enum PendingTask {
    Searching,
    ComputingStats,
    ComputingGitStatus,
}

/// What one increment of background work did.
#[derive(Clone, Copy, Debug, PartialEq, Eq, Structural)]
pub enum TaskOutcome {
    /// There was nothing to do.
    Nothing,
    /// The dam interrupted the work; it is picked up again on the next tick.
    Interrupted,
    /// The pending pattern was applied.
    Filtered,
    /// Version-control figures are wanted: the caller fetches them and hands
    /// them to `set_git_status`.
    GitStatusNeeded,
    /// The figures of one directory line were computed.
    SumComputed,
}

/// What the panel around a state tells of the application.
#[derive(Clone, Copy, Debug, PartialEq, Eq, Structural)]
pub struct CmdContext {
    pub is_first_panel: bool,
    pub is_last_panel: bool,
    pub nb_panels: usize,
    pub has_preview: bool,
    /// Whether this panel was opened to edit a verb's argument.
    pub arg_edition: bool,
    /// Whether the shell function gave a file to write commands into.
    pub has_export_path: bool,
}

/// A one-letter flag shown in the status line, with its value.
#[derive(Clone, Copy, Debug, PartialEq, Eq)]
pub struct Flag {
    pub name: &'static str,
    pub value: &'static str,
}

/// What the status line tells when no verb is being typed.
#[derive(Clone, Copy, Debug, PartialEq, Eq, Structural)]
pub struct StatusFlags {
    pub has_previous_state: bool,
    pub is_filtered: bool,
    pub has_removed_pattern: bool,
    pub on_tree_root: bool,
}

/// The line budget of a page `page_height` rows high.
pub open spec fn budget(page_height: int) -> nat {
    if page_height < 1 {
        1
    } else {
        page_height as nat
    }
}

/// The rows of the screen left to the tree.
pub open spec fn page_height_spec(screen: Screen) -> int {
    screen.height - 2
}

pub open spec fn displayed_of(st: BrowserState) -> Tree {
    match st.filtered_tree {
        Some(t) => t,
        None => st.tree,
    }
}

/// The path of the selected line of a well-formed state.
pub open spec fn selected_path_of(st: BrowserState) -> Seq<String> {
    let t = displayed_of(st);
    entry_path(st.fs, t.lines@[t.selection as int].entry as int)
}

/// Options that differ from `o` by their pattern only.
pub open spec fn same_display(a: TreeOptions, o: TreeOptions) -> bool {
    a == TreeOptions { pattern: a.pattern, ..o }
}

fn line_budget(screen: &Screen) -> (r: usize)
    ensures
        r as nat == budget(page_height_spec(*screen)),
        r >= 1,
{
    let h = BrowserState::page_height(screen);
    if h < 1 {
        1
    } else {
        h as usize
    }
}

fn message(s: &str) -> (r: String)
    ensures
        r@ == s@,
{
    s.to_owned()
}

/// The text shown for a build error.
pub open spec fn build_error_text(e: TreeBuildError) -> Seq<char> {
    match e {
        TreeBuildError::NotFound => "file not found"@,
        TreeBuildError::NotADirectory => "not a directory"@,
        TreeBuildError::NoRoom => "no room for the tree"@,
    }
}

/// A message for each build error.
pub fn build_error_message(e: TreeBuildError) -> (r: String)
    ensures
        r@ == build_error_text(e),
{
    match e {
        TreeBuildError::NotFound => message("file not found"),
        TreeBuildError::NotADirectory => message("not a directory"),
        TreeBuildError::NoRoom => message("no room for the tree"),
    }
}

impl AppStateCmdResult {
    /// The result of an attempt at a new state.
    pub fn from_optional_state(
        r: Result<Option<BrowserState>, TreeBuildError>,
        in_new_panel: bool,
    ) -> (c: AppStateCmdResult)
        ensures
            r matches Ok(Some(st)) ==> c == (AppStateCmdResult::NewState {
                state: Box::new(st),
                in_new_panel,
            }),
            r matches Ok(None) ==> c is Keep,
            r matches Err(e) ==> (c matches AppStateCmdResult::DisplayError(m) && m@ == build_error_text(e)),
    {
        match r {
            Ok(Some(st)) => AppStateCmdResult::NewState { state: Box::new(st), in_new_panel },
            Ok(None) => AppStateCmdResult::Keep,
            Err(e) => AppStateCmdResult::DisplayError(build_error_message(e)),
        }
    }
}

impl BrowserState {
    pub open spec fn wf(&self) -> bool {
        &&& self.fs.wf()
        &&& self.fs.entries@.len() >= 1
        &&& dir_like(self.fs.entries@[0].line_type)
        &&& self.tree.wf()
        &&& self.tree.lines_in(self.fs)
        &&& self.tree.root@ == self.fs.root@
        &&& (self.filtered_tree matches Some(t) ==> t.wf() && t.lines_in(self.fs) && t.root@ == self.fs.root@)
        &&& self.pending_pattern.wf()
    }

    pub open spec fn displayed(&self) -> Tree {
        displayed_of(*self)
    }

    /// Builds a state on a snapshot: the base tree without pattern, the
    /// pattern of the options left pending. Nothing when the dam interrupts.
    pub fn new(fs: FsSnapshot, options: TreeOptions, screen: &Screen, dam: &mut Dam) -> (r: Result<
        Option<BrowserState>,
        TreeBuildError,
    >)
        requires
            fs.wf(),
            options.wf(),
        ensures
            r is Err <==> fs.entries@.len() == 0 || !dir_like(fs.entries@[0].line_type),
            r == Err::<Option<BrowserState>, _>(TreeBuildError::NotFound) <==> fs.entries@.len() == 0,
            r == Err::<Option<BrowserState>, _>(TreeBuildError::NotADirectory) <==> fs.entries@.len() > 0
                && !dir_like(fs.entries@[0].line_type),
            r == Ok::<_, TreeBuildError>(None::<BrowserState>) <==> fs.entries@.len() > 0 && dir_like(
                fs.entries@[0].line_type,
            ) && old(dam).interrupts_within(dir_count(fs.entries@, fs.entries@.len() as int)),
            r matches Ok(Some(st)) ==> {
                &&& st.wf()
                &&& st.fs == fs
                &&& st.filtered_tree is None
                &&& st.pending_pattern == options.pattern
                &&& !st.total_search_required
                &&& same_display(st.tree.options, options)
                &&& !st.tree.options.pattern.is_active()
                &&& built_from(st.tree, fs, st.tree.options, budget(page_height_spec(*screen)), false)
            },
    {
        let mut options = options;
        let pending_pattern = options.pattern.take();
        let builder = match TreeBuilder::from(&fs, options, line_budget(screen)) {
            Ok(b) => b,
            Err(e) => {
                return Err(e);
            },
        };
        match builder.build(&fs, false, dam) {
            Some(tree) => Ok(
                Some(
                    BrowserState {
                        fs,
                        tree,
                        filtered_tree: None,
                        pending_pattern,
                        total_search_required: false,
                    },
                ),
            ),
            None => Ok(None),
        }
    }

    /// A new state on the same snapshot, its options changed by a toggling verb.
    pub fn with_new_options(
        &self,
        screen: &Screen,
        change_options: Internal,
        in_new_panel: bool,
    ) -> (r: AppStateCmdResult)
        requires
            self.wf(),
        ensures
            toggle_result(*self, change_options, in_new_panel, *screen, r),
    {
        let tree = self.displayed_tree();
        let options = toggle_options(change_options, tree.options.clone());
        let mut dam = Dam::unlimited();
        let fs = self.fs.duplicate();
        let built = BrowserState::new(fs, options, screen, &mut dam);
        AppStateCmdResult::from_optional_state(built, in_new_panel)
    }

    /// The path of the root.
    pub fn root(&self) -> (r: &Vec<String>)
        ensures
            r@ == self.tree.root@,
    {
        &self.tree.root
    }

    /// The rows of the screen left to the tree.
    pub fn page_height(screen: &Screen) -> (r: i32)
        ensures
            r == page_height_spec(*screen),
    {
        screen.height as i32 - 2
    }

    /// The displayed tree: the filtered one if there is one, else the base one.
    pub fn displayed_tree(&self) -> (r: &Tree)
        ensures
            *r == self.displayed(),
    {
        match &self.filtered_tree {
            Some(t) => t,
            None => &self.tree,
        }
    }

    /// The displayed tree, to change it.
    pub fn displayed_tree_mut(&mut self) -> (r: &mut Tree)
        ensures
            *r == old(self).displayed(),
            old(self).filtered_tree is Some ==> *final(self) == (BrowserState {
                filtered_tree: Some(*final(r)),
                ..*old(self)
            }),
            old(self).filtered_tree is None ==> *final(self) == (BrowserState {
                tree: *final(r),
                ..*old(self)
            }),
    {
        match &mut self.filtered_tree {
            Some(t) => t,
            None => &mut self.tree,
        }
    }

    /// The path of the selected line.
    pub fn selected_path(&self) -> (r: Vec<String>)
        requires
            self.wf(),
        ensures
            r@ == selected_path_of(*self),
    {
        let t = self.displayed_tree();
        path_of(&self.fs, t.lines[t.selection].entry)
    }

    /// Asks for a state on the parent of the selected line, without pattern.
    pub fn go_to_parent(&mut self, screen: &Screen, in_new_panel: bool) -> (r: AppStateCmdResult)
        requires
            old(self).wf(),
        ensures
            *final(self) == *old(self),
            parent_spec(*old(self), in_new_panel, r),
    {
        let mut path = self.selected_path();
        if path.len() > 0 {
            path.pop();
            let options = self.displayed_tree().options.without_pattern();
            proof {
                assert(path@ =~= selected_path_of(*old(self)).drop_last());
            }
            AppStateCmdResult::NewRoot { path, options, in_new_panel }
        } else {
            AppStateCmdResult::DisplayError(message("no parent found"))
        }
    }

    /// Opens the selection and stays: a file with its default handler (a
    /// link to a file through its target), a directory as the new root (the
    /// root line goes one level up).
    pub fn open_selection_stay_in_broot(
        &mut self,
        screen: &Screen,
        in_new_panel: bool,
        keep_pattern: bool,
    ) -> (r: AppStateCmdResult)
        requires
            old(self).wf(),
        ensures
            *final(self) == *old(self),
            open_stay_spec(*old(self), in_new_panel, keep_pattern, r),
    {
        let tree = self.displayed_tree();
        let line = &tree.lines[tree.selection];
        match &line.line_type {
            TreeLineType::File => AppStateCmdResult::Open {
                path: LaunchPath::Entry(self.selected_path()),
            },
            TreeLineType::SymLinkToFile(target) => AppStateCmdResult::Open {
                path: LaunchPath::LinkTarget(target.clone()),
            },
            TreeLineType::Dir | TreeLineType::SymLinkToDir(_) => {
                let mut target = self.selected_path();
                if tree.selection == 0 && target.len() > 0 {
                    // opening the root would go where we already are: go up instead
                    target.pop();
                }
                let options = if keep_pattern {
                    tree.options.clone()
                } else {
                    tree.options.without_pattern()
                };
                proof {
                    let path = selected_path_of(*old(self));
                    if tree.selection == 0 && path.len() > 0 {
                        assert(target@ =~= path.drop_last());
                    }
                }
                AppStateCmdResult::NewRoot { path: target, options, in_new_panel }
            },
            TreeLineType::Pruning { .. } => AppStateCmdResult::Keep,
        }
    }

    /// Opens the selection and leaves: a file is launched (a link to a file
    /// through its target), a directory becomes the shell's working
    /// directory when the shell function allows.
    pub fn open_selection_quit_broot(&mut self, has_export_path: bool) -> (r: AppStateCmdResult)
        requires
            old(self).wf(),
        ensures
            *final(self) == *old(self),
            open_leave_spec(*old(self), has_export_path, r),
    {
        let tree = self.displayed_tree();
        let line = &tree.lines[tree.selection];
        match &line.line_type {
            TreeLineType::File => make_opener(
                LaunchPath::Entry(self.selected_path()),
                line.is_exe,
                has_export_path,
            ),
            TreeLineType::Dir | TreeLineType::SymLinkToDir(_) => {
                if has_export_path {
                    AppStateCmdResult::ExportCd { path: self.selected_path() }
                } else {
                    AppStateCmdResult::DisplayError(message("This feature needs broot to be launched with the `br` script"))
                }
            },
            TreeLineType::SymLinkToFile(target) => make_opener(
                LaunchPath::LinkTarget(target.clone()),
                line.is_exe,
                has_export_path,
            ),
            TreeLineType::Pruning { .. } => AppStateCmdResult::Keep,
        }
    }

    /// Applies a pattern at the next tick; no pattern discards the filtered tree.
    pub fn on_pattern(&mut self, pat: InputPattern) -> (r: AppStateCmdResult)
        requires
            old(self).wf(),
            pat.wf(),
        ensures
            final(self).wf(),
            r is Keep,
            final(self).pending_pattern == pat,
            final(self).tree == old(self).tree,
            final(self).fs == old(self).fs,
            final(self).total_search_required == old(self).total_search_required,
            final(self).filtered_tree == if pat.is_active() {
                old(self).filtered_tree
            } else {
                None
            },
    {
        if pat.is_none() {
            self.filtered_tree = None;
        }
        self.pending_pattern = pat;
        AppStateCmdResult::Keep
    }

    /// Forgets the pending pattern.
    pub fn clear_pending(&mut self)
        requires
            old(self).wf(),
        ensures
            final(self).wf(),
            !final(self).pending_pattern.is_active(),
            *final(self) == (BrowserState { pending_pattern: final(self).pending_pattern, ..*old(self) }),
    {
        self.pending_pattern = InputPattern::none();
    }

    /// Which background work is left, if any.
    pub fn get_pending_task(&self) -> (r: Option<PendingTask>)
        ensures
            r == if self.pending_pattern.is_active() {
                Some(PendingTask::Searching)
            } else if self.displayed().missing_sum() {
                Some(PendingTask::ComputingStats)
            } else if self.displayed().missing_git_status() {
                Some(PendingTask::ComputingGitStatus)
            } else {
                None
            },
    {
        if self.pending_pattern.is_some() {
            Some(PendingTask::Searching)
        } else if self.displayed_tree().has_dir_missing_sum() {
            Some(PendingTask::ComputingStats)
        } else if self.displayed_tree().is_missing_git_status_computation() {
            Some(PendingTask::ComputingGitStatus)
        } else {
            None
        }
    }

    /// Hands the version-control figures to the displayed tree.
    pub fn set_git_status(&mut self, status: TreeGitStatus)
        requires
            old(self).wf(),
        ensures
            final(self).wf(),
            *final(self) == with_displayed(
                *old(self),
                Tree { git_status: Some(status), ..old(self).displayed() },
            ),
    {
        self.displayed_tree_mut().git_status = Some(status);
    }

    /// One increment of background work, in this order: apply the pending
    /// pattern; else ask for version-control figures; else compute the
    /// figures of one directory. The dam bounds the work.
    #[verifier::rlimit(50)]
    pub fn do_pending_task(&mut self, screen: &Screen, dam: &mut Dam) -> (r: TaskOutcome)
        requires
            old(self).wf(),
        ensures
            final(self).wf(),
            final(self).fs == old(self).fs,
            final(self).tree == old(self).tree || (old(self).filtered_tree is None && r == TaskOutcome::SumComputed),
            old(self).pending_pattern.is_active() ==> ({
                let o = TreeOptions { pattern: old(self).pending_pattern, ..old(self).tree.options };
                let total = old(self).total_search_required;
                let n = dir_count(old(self).fs.entries@, old(self).fs.entries@.len() as int);
                &&& (r == TaskOutcome::Interrupted <==> old(dam).interrupts_within(n))
                &&& r == TaskOutcome::Interrupted ==> *final(self) == *old(self)
                &&& r != TaskOutcome::Interrupted ==> {
                    &&& r == TaskOutcome::Filtered
                    &&& !final(self).pending_pattern.is_active()
                    &&& !final(self).total_search_required
                    &&& final(self).filtered_tree matches Some(ft) && ft.scroll as int == scroll_to_show(
                        0,
                        ft.selection as int,
                        rows(page_height_spec(*screen) as i32),
                    ) && built_from(
                        Tree { selection: 0, scroll: 0, ..ft },
                        old(self).fs,
                        o,
                        budget(page_height_spec(*screen)),
                        total,
                    ) && ((forall|k: int| 0 <= k < ft.lines@.len() ==> !(#[trigger] ft.lines@[k]).direct_match)
                        ==> ft.selection == 0) && ((exists|k: int|
                        0 <= k < ft.lines@.len() && (#[trigger] ft.lines@[k]).direct_match) ==> {
                        &&& ft.lines@[ft.selection as int].direct_match
                        &&& forall|k: int| 0 <= k < ft.lines@.len() && (#[trigger] ft.lines@[k]).direct_match
                            ==> ft.lines@[k].score <= ft.lines@[ft.selection as int].score
                    })
                }
            }),
            !old(self).pending_pattern.is_active() && old(self).displayed().missing_git_status() ==> r
                == TaskOutcome::GitStatusNeeded && *final(self) == *old(self),
            !old(self).pending_pattern.is_active() && !old(self).displayed().missing_git_status()
                && old(self).displayed().missing_sum() ==> {
                &&& (r == TaskOutcome::Interrupted <==> old(dam).interrupts_within(1))
                &&& r == TaskOutcome::Interrupted ==> *final(self) == *old(self)
                &&& r != TaskOutcome::Interrupted ==> r == TaskOutcome::SumComputed && exists|k: int|
                    0 <= k < old(self).displayed().lines@.len() && #[trigger] sum_filled(
                        old(self).displayed(),
                        final(self).displayed(),
                        old(self).fs,
                        k,
                    )
                &&& final(self).pending_pattern == old(self).pending_pattern
                &&& (final(self).filtered_tree is Some <==> old(self).filtered_tree is Some)
            },
            !old(self).pending_pattern.is_active() && !old(self).displayed().missing_git_status()
                && !old(self).displayed().missing_sum() ==> r == TaskOutcome::Nothing && *final(self)
                == *old(self),
    {
        if self.pending_pattern.is_some() {
            let mut options = self.tree.options.clone();
            options.pattern = self.pending_pattern.clone();
            let builder = match TreeBuilder::from(&self.fs, options, line_budget(screen)) {
                Ok(b) => b,
                Err(_) => {
                    return TaskOutcome::Nothing;
                },
            };
            match builder.build(&self.fs, self.total_search_required, dam) {
                Some(ft) => {
                    let mut ft = ft;
                    ft.try_select_best_match();
                    ft.make_selection_visible(BrowserState::page_height(screen));
                    self.pending_pattern = InputPattern::none();
                    self.total_search_required = false;
                    self.filtered_tree = Some(ft);
                    TaskOutcome::Filtered
                },
                None => TaskOutcome::Interrupted,
            }
        } else if self.displayed_tree().is_missing_git_status_computation() {
            TaskOutcome::GitStatusNeeded
        } else if self.displayed_tree().has_dir_missing_sum() {
            let fs = &self.fs;
            let t = match &mut self.filtered_tree {
                Some(t) => t,
                None => &mut self.tree,
            };
            match t.fetch_some_missing_dir_sum(fs, dam) {
                Some(k) => {
                    assert(sum_filled(old(self).displayed(), *final(t), old(self).fs, k as int));
                    TaskOutcome::SumComputed
                },
                None => TaskOutcome::Interrupted,
            }
        } else {
            TaskOutcome::Nothing
        }
    }
}

/// Whether `b` is `a` with the figures of directory line `k` filled in.
pub open spec fn sum_filled(a: Tree, b: Tree, fs: FsSnapshot, k: int) -> bool {
    &&& dir_like(a.lines@[k].line_type)
    &&& a.lines@[k].sum is None
    &&& b == (Tree {
        lines: b.lines,
        ..a
    })
    &&& b.lines@ == a.lines@.update(k, TreeLine {
        sum: Some(dir_sum(fs.entries@, a.lines@[k].entry as int)),
        ..a.lines@[k]
    })
}

/// The message when leaving into a directory is not possible.
pub open spec fn needs_shell_function() -> Seq<char> {
    "This feature needs broot to be launched with the `br` script"@
}

/// What a toggling verb asks for: a state on the same snapshot, built with
/// the toggled options, their pattern left pending.
pub open spec fn toggle_result(
    st: BrowserState,
    i: Internal,
    in_new_panel: bool,
    screen: Screen,
    r: AppStateCmdResult,
) -> bool {
    r matches AppStateCmdResult::NewState { state, in_new_panel: p } && p == in_new_panel && {
        let o = toggled(i, st.displayed().options);
        &&& state.wf()
        &&& state.fs.entries@ == st.fs.entries@
        &&& state.fs.root@ == st.fs.root@
        &&& state.tree.root@ == st.displayed().root@
        &&& state.filtered_tree is None
        &&& state.pending_pattern == o.pattern
        &&& same_display(state.tree.options, o)
        &&& !state.tree.options.pattern.is_active()
        &&& built_from(state.tree, state.fs, state.tree.options, budget(page_height_spec(screen)), false)
    }
}

/// The state with its displayed tree replaced by `t`.
pub open spec fn with_displayed(st: BrowserState, t: Tree) -> BrowserState {
    match st.filtered_tree {
        Some(_) => BrowserState { filtered_tree: Some(t), ..st },
        None => BrowserState { tree: t, ..st },
    }
}

/// What `make_opener` asks for on `path`.
pub open spec fn opener_spec(r: AppStateCmdResult, path: LaunchPath, is_exe: bool, has_export_path: bool) -> bool {
    if is_exe && has_export_path {
        r == (AppStateCmdResult::ExportPath { path })
    } else if is_exe {
        r == (AppStateCmdResult::Launch { launchable: Launchable::Program { path } })
    } else {
        r == (AppStateCmdResult::Launch { launchable: Launchable::Opener { path } })
    }
}

/// Whether `p` is what opening the selected line points at.
pub open spec fn points_at_selection(st: BrowserState, p: LaunchPath) -> bool {
    let t = displayed_of(st);
    match t.lines@[t.selection as int].line_type {
        TreeLineType::SymLinkToFile(target) => p == LaunchPath::LinkTarget(target),
        _ => p matches LaunchPath::Entry(v) && v@ == selected_path_of(st),
    }
}

/// What "parent" asks for.
pub open spec fn parent_spec(st: BrowserState, in_new_panel: bool, r: AppStateCmdResult) -> bool {
    let path = selected_path_of(st);
    if path.len() > 0 {
        r matches AppStateCmdResult::NewRoot { path: p, options, in_new_panel: q } && q == in_new_panel
            && p@ == path.drop_last() && same_display(options, st.displayed().options)
            && !options.pattern.is_active()
    } else {
        r matches AppStateCmdResult::DisplayError(m) && m@ == "no parent found"@
    }
}

/// What opening the selection and staying asks for.
pub open spec fn open_stay_spec(st: BrowserState, in_new_panel: bool, keep_pattern: bool, r: AppStateCmdResult) -> bool {
    let t = st.displayed();
    let line = t.lines@[t.selection as int];
    let path = selected_path_of(st);
    if line.line_type is File || line.line_type is SymLinkToFile {
        r matches AppStateCmdResult::Open { path: p } && points_at_selection(st, p)
    } else if dir_like(line.line_type) {
        r matches AppStateCmdResult::NewRoot { path: p, options, in_new_panel: q } && q == in_new_panel
            && p@ == (if t.selection == 0 && path.len() > 0 {
            path.drop_last()
        } else {
            path
        }) && same_display(options, t.options) && (keep_pattern ==> options == t.options) && (
        !keep_pattern ==> !options.pattern.is_active())
    } else {
        r is Keep
    }
}

/// What opening the selection and leaving asks for.
pub open spec fn open_leave_spec(st: BrowserState, has_export_path: bool, r: AppStateCmdResult) -> bool {
    let t = st.displayed();
    let line = t.lines@[t.selection as int];
    if line.line_type is File || line.line_type is SymLinkToFile {
        match r {
            AppStateCmdResult::ExportPath { path: p } => line.is_exe && has_export_path
                && points_at_selection(st, p),
            AppStateCmdResult::Launch { launchable: Launchable::Program { path: p } } => line.is_exe
                && !has_export_path && points_at_selection(st, p),
            AppStateCmdResult::Launch { launchable: Launchable::Opener { path: p } } => !line.is_exe
                && points_at_selection(st, p),
            _ => false,
        }
    } else if dir_like(line.line_type) {
        if has_export_path {
            r matches AppStateCmdResult::ExportCd { path: p } && p@ == selected_path_of(st)
        } else {
            r matches AppStateCmdResult::DisplayError(m) && m@ == needs_shell_function()
        }
    } else {
        r is Keep
    }
}

/// Quits and opens the file the best way: an executable is run (from the
/// shell when its function allows), any other file goes to its default handler.
fn make_opener(path: LaunchPath, is_exe: bool, has_export_path: bool) -> (r: AppStateCmdResult)
    ensures
        opener_spec(r, path, is_exe, has_export_path),
{
    if is_exe {
        if has_export_path {
            AppStateCmdResult::ExportPath { path }
        } else {
            AppStateCmdResult::Launch { launchable: Launchable::Program { path } }
        }
    } else {
        AppStateCmdResult::Launch { launchable: Launchable::Opener { path } }
    }
}

impl BrowserState {
    /// The selected line.
    pub fn selection(&self) -> (r: &TreeLine)
        requires
            self.wf(),
        ensures
            *r == self.displayed().lines@[self.displayed().selection as int],
    {
        self.displayed_tree().selected_line()
    }

    /// A click on row `y` selects the line shown there.
    pub fn on_click(&mut self, x: u16, y: u16) -> (r: AppStateCmdResult)
        requires
            old(self).wf(),
        ensures
            final(self).wf(),
            r is Keep,
            *final(self) == with_displayed(*old(self), final(self).displayed()),
            final(self).displayed() == if old(self).displayed().scroll + y < old(self).displayed().lines@.len() {
                Tree { selection: (old(self).displayed().scroll + y) as usize, ..old(self).displayed() }
            } else {
                old(self).displayed()
            },
    {
        self.displayed_tree_mut().try_select_y(y as i32);
        AppStateCmdResult::Keep
    }

    /// A double click on the selected line opens it; elsewhere it does nothing.
    pub fn on_double_click(&mut self, x: u16, y: u16, screen: &Screen) -> (r: AppStateCmdResult)
        requires
            old(self).wf(),
        ensures
            *final(self) == *old(self),
            old(self).displayed().selection != y ==> r is Keep,
            old(self).displayed().selection == y ==> open_stay_spec(*old(self), false, false, r),
    {
        if self.displayed_tree().selection == y as usize {
            self.open_selection_stay_in_broot(screen, false, false)
        } else {
            AppStateCmdResult::Keep
        }
    }

    /// The status shown when no verb is typed.
    pub fn no_verb_status(&self, has_previous_state: bool) -> (r: StatusFlags)
        requires
            self.wf(),
        ensures
            r == (StatusFlags {
                has_previous_state,
                is_filtered: self.filtered_tree is Some,
                has_removed_pattern: false,
                on_tree_root: self.displayed().selection == 0,
            }),
    {
        StatusFlags {
            has_previous_state,
            is_filtered: self.filtered_tree.is_some(),
            has_removed_pattern: false,
            on_tree_root: self.displayed_tree().selection == 0,
        }
    }

    /// The flags of the status line: hidden files shown, ignore rules applied.
    pub fn get_flags(&self) -> (r: Vec<Flag>)
        ensures
            r@.len() == 2,
            r@[0].name@ == "h"@,
            r@[0].value@ == if self.displayed().options.show_hidden { "y"@ } else { "n"@ },
            r@[1].name@ == "gi"@,
            r@[1].value@ == if self.displayed().options.respect_git_ignore { "y"@ } else { "n"@ },
    {
        let options = &self.displayed_tree().options;
        vec![
            Flag { name: "h", value: if options.show_hidden { "y" } else { "n" } },
            Flag { name: "gi", value: if options.respect_git_ignore { "y" } else { "n" } },
        ]
    }

    /// The text the input starts with: the pending pattern, else the one applied.
    pub fn get_starting_input(&self) -> (r: String)
        ensures
            r@ == if self.pending_pattern.is_active() {
                self.pending_pattern.raw@
            } else {
                self.displayed().options.pattern.raw@
            },
    {
        if self.pending_pattern.is_some() {
            self.pending_pattern.raw.clone()
        } else {
            self.displayed_tree().options.pattern.raw.clone()
        }
    }

    /// Takes a fresh snapshot (of the same root, as a rule): the base tree and the
    /// filtered one, if any, are rebuilt with their own options. Returns the
    /// pattern applied. A snapshot with no readable root directory leaves the
    /// state as is.
    pub fn refresh(&mut self, fs: FsSnapshot, screen: &Screen) -> (r: InputPattern)
        requires
            old(self).wf(),
            fs.wf(),
        ensures
            final(self).wf(),
            r == match old(self).filtered_tree {
                Some(t) => t.options.pattern,
                None => old(self).tree.options.pattern,
            },
            final(self).pending_pattern == old(self).pending_pattern,
            final(self).total_search_required == old(self).total_search_required,
            fs.entries@.len() > 0 && dir_like(fs.entries@[0].line_type) ==> {
                &&& final(self).fs == fs
                &&& built_from(final(self).tree, fs, old(self).tree.options, budget(page_height_spec(*screen)), false)
                &&& match old(self).filtered_tree {
                    Some(ft) => final(self).filtered_tree matches Some(nft) && built_from(
                        nft,
                        fs,
                        ft.options,
                        budget(page_height_spec(*screen)),
                        ft.total_search,
                    ),
                    None => final(self).filtered_tree is None,
                }
            },
            !(fs.entries@.len() > 0 && dir_like(fs.entries@[0].line_type)) ==> *final(self) == *old(self),
    {
        let pattern = match &self.filtered_tree {
            Some(t) => t.options.pattern.clone(),
            None => self.tree.options.pattern.clone(),
        };
        let budget = line_budget(screen);
        let builder = match TreeBuilder::from(&fs, self.tree.options.clone(), budget) {
            Ok(b) => b,
            Err(_) => {
                return pattern;
            },
        };
        let mut dam = Dam::unlimited();
        let tree = match builder.build(&fs, false, &mut dam) {
            Some(t) => t,
            None => {
                return pattern;
            },
        };
        let filtered = match &self.filtered_tree {
            Some(ft) => {
                let fb = match TreeBuilder::from(&fs, ft.options.clone(), budget) {
                    Ok(b) => b,
                    Err(_) => {
                        return pattern;
                    },
                };
                match fb.build(&fs, ft.total_search, &mut dam) {
                    Some(t) => Some(t),
                    None => {
                        return pattern;
                    },
                }
            },
            None => None,
        };
        self.tree = tree;
        self.filtered_tree = filtered;
        self.fs = fs;
        pattern
    }
}

} // verus!
