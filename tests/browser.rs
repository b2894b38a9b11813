use broot_core::browser_state::{
    AppStateCmdResult, BrowserState, CmdContext, Internal, LaunchPath, Launchable, PendingTask, Screen,
    TaskOutcome,
};
use broot_core::browser_verbs::{InternalExecution, Verb, VerbArity, VerbExecution, VerbInvocation};
use broot_core::dam::Dam;
use broot_core::pattern::InputPattern;
use broot_core::tree::{FsEntry, FsSnapshot, Sort, TreeLineType, TreeOptions};
use broot_core::tree_build::TreeBuildError;

fn entry(name: &str, parent: usize, depth: usize, line_type: TreeLineType) -> FsEntry {
    FsEntry {
        name: name.to_string(),
        parent,
        depth,
        line_type,
        size: 10,
        is_exe: false,
        ignored: false,
    }
}

/// /project with README.md, main.c, src/lib.c and a hidden .git directory.
fn project() -> FsSnapshot {
    FsSnapshot {
        root: vec!["project".to_string()],
        entries: vec![
            entry("project", 0, 0, TreeLineType::Dir),
            entry(".git", 0, 1, TreeLineType::Dir),
            entry("HEAD", 1, 2, TreeLineType::File),
            entry("README.md", 0, 1, TreeLineType::File),
            entry("main.c", 0, 1, TreeLineType::File),
            entry("src", 0, 1, TreeLineType::Dir),
            entry("lib.c", 5, 2, TreeLineType::File),
        ],
    }
}

fn screen() -> Screen {
    Screen { width: 80, height: 20 }
}

fn ctx() -> CmdContext {
    CmdContext {
        is_first_panel: true,
        is_last_panel: true,
        nb_panels: 1,
        has_preview: false,
        arg_edition: false,
        has_export_path: false,
    }
}

fn state() -> BrowserState {
    let mut dam = Dam::unlimited();
    BrowserState::new(project(), TreeOptions::new(), &screen(), &mut dam)
        .unwrap()
        .unwrap()
}

fn names(st: &BrowserState) -> Vec<String> {
    st.displayed_tree().lines.iter().map(|l| l.name.clone()).collect()
}

fn run(st: &mut BrowserState, internal: Internal) -> AppStateCmdResult {
    let exec = InternalExecution { internal, bang: false };
    st.on_internal(&exec, None, &ctx(), &screen())
}

fn filtered_on_lib() -> BrowserState {
    let mut st = state();
    st.on_pattern(InputPattern::fuzzy("lib".to_string()));
    let mut dam = Dam::unlimited();
    assert_eq!(st.do_pending_task(&screen(), &mut dam), TaskOutcome::Filtered);
    st
}

#[test]
fn base_tree_hides_hidden_entries() {
    let st = state();
    assert_eq!(names(&st), vec!["project", "README.md", "main.c", "src", "lib.c"]);
    assert_eq!(st.displayed_tree().selection, 0);
    assert!(st.filtered_tree.is_none());
    assert_eq!(st.root(), &vec!["project".to_string()]);
}

#[test]
fn fuzzy_lib_keeps_match_and_ancestor() {
    let st = filtered_on_lib();
    assert_eq!(names(&st), vec!["project", "src", "lib.c"]);
    let ft = st.filtered_tree.as_ref().unwrap();
    assert_eq!(ft.lines[2].depth, 2);
    assert!(ft.lines[2].direct_match);
    assert!(!ft.lines[1].direct_match);
    assert_eq!(ft.selection, 2);
    assert!(st.pending_pattern.is_none());
    assert_eq!(st.selected_path(), vec!["project", "src", "lib.c"]);
}

#[test]
fn pattern_cleared_before_rebuild_completes() {
    let mut st = state();
    st.displayed_tree_mut().move_selection(2, 18);
    assert_eq!(st.tree.selection, 2);
    st.on_pattern(InputPattern::fuzzy("lib".to_string()));
    let mut dam = Dam::interrupted();
    assert_eq!(st.do_pending_task(&screen(), &mut dam), TaskOutcome::Interrupted);
    assert!(st.pending_pattern.is_some());
    st.on_pattern(InputPattern::none());
    assert!(st.filtered_tree.is_none());
    assert!(st.pending_pattern.is_none());
    assert_eq!(st.tree.selection, 2);
    assert_eq!(st.get_pending_task(), None);
}

#[test]
fn clearing_pattern_restores_base_tree() {
    let mut st = filtered_on_lib();
    st.tree.selection = 3;
    st.on_pattern(InputPattern::none());
    assert!(st.filtered_tree.is_none());
    assert_eq!(st.displayed_tree().selection, 3);
    assert_eq!(names(&st).len(), 5);
}

#[test]
fn toggle_hidden_shows_then_hides_git() {
    let mut st = state();
    let shown = match run(&mut st, Internal::ToggleHidden) {
        AppStateCmdResult::NewState { state, in_new_panel } => {
            assert!(!in_new_panel);
            state
        }
        _ => panic!("expected a new state"),
    };
    assert_eq!(
        names(&shown),
        vec!["project", ".git", "HEAD", "README.md", "main.c", "src", "lib.c"]
    );
    assert_eq!(shown.tree.lines[1].depth, 1);
    let mut shown = *shown;
    let hidden = match run(&mut shown, Internal::ToggleHidden) {
        AppStateCmdResult::NewState { state, .. } => state,
        _ => panic!("expected a new state"),
    };
    assert_eq!(names(&hidden), vec!["project", "README.md", "main.c", "src", "lib.c"]);
    assert!(!hidden.tree.options.show_hidden);
}

#[test]
fn back_collapses_filter_then_pops() {
    let mut st = filtered_on_lib();
    assert!(matches!(run(&mut st, Internal::Back), AppStateCmdResult::Keep));
    assert!(st.filtered_tree.is_none());
    assert_eq!(st.tree.lines[st.tree.selection].name, "lib.c");
    assert_eq!(st.selected_path(), vec!["project", "src", "lib.c"]);
    assert!(matches!(run(&mut st, Internal::Back), AppStateCmdResult::Keep));
    assert_eq!(st.tree.selection, 0);
    assert!(matches!(run(&mut st, Internal::Back), AppStateCmdResult::PopState));
}

#[test]
fn back_at_root_without_filter_pops() {
    let mut st = state();
    assert!(matches!(run(&mut st, Internal::Back), AppStateCmdResult::PopState));
}

#[test]
fn line_up_from_root_wraps_to_last() {
    let mut st = state();
    run(&mut st, Internal::LineUp);
    assert_eq!(st.displayed_tree().selection, 4);
    run(&mut st, Internal::LineDown);
    assert_eq!(st.displayed_tree().selection, 0);
    run(&mut st, Internal::SelectLast);
    assert_eq!(st.displayed_tree().selection, 4);
    run(&mut st, Internal::SelectFirst);
    assert_eq!(st.displayed_tree().selection, 0);
}

#[test]
fn empty_filtered_result_selects_root() {
    let mut st = state();
    st.on_pattern(InputPattern::fuzzy("zzz".to_string()));
    let mut dam = Dam::unlimited();
    assert_eq!(st.do_pending_task(&screen(), &mut dam), TaskOutcome::Filtered);
    assert_eq!(names(&st), vec!["project"]);
    assert_eq!(st.displayed_tree().selection, 0);
    run(&mut st, Internal::LineDown);
    assert_eq!(st.displayed_tree().selection, 0);
    run(&mut st, Internal::NextMatch);
    assert_eq!(st.displayed_tree().selection, 0);
}

#[test]
fn total_search_needs_a_search() {
    let mut st = state();
    assert!(matches!(run(&mut st, Internal::TotalSearch), AppStateCmdResult::DisplayError(_)));
    let mut st = filtered_on_lib();
    assert!(matches!(run(&mut st, Internal::TotalSearch), AppStateCmdResult::DisplayError(_)));
}

#[test]
fn parent_of_selection() {
    let mut st = state();
    st.tree.selection = 4;
    match run(&mut st, Internal::Parent) {
        AppStateCmdResult::NewRoot { path, options, in_new_panel } => {
            assert_eq!(path, vec!["project", "src"]);
            assert!(options.pattern.is_none());
            assert!(!in_new_panel);
        }
        _ => panic!("expected a new root"),
    }
}

#[test]
fn parent_of_filesystem_root_is_an_error() {
    let mut fs = project();
    fs.root = Vec::new();
    let mut dam = Dam::unlimited();
    let mut st = BrowserState::new(fs, TreeOptions::new(), &screen(), &mut dam).unwrap().unwrap();
    assert!(matches!(run(&mut st, Internal::Parent), AppStateCmdResult::DisplayError(_)));
    assert!(matches!(run(&mut st, Internal::UpTree), AppStateCmdResult::DisplayError(_)));
}

#[test]
fn open_stay_on_root_goes_up() {
    let mut st = state();
    match st.open_selection_stay_in_broot(&screen(), false, false) {
        AppStateCmdResult::NewRoot { path, .. } => assert!(path.is_empty()),
        _ => panic!("expected a new root"),
    }
    st.tree.selection = 3;
    match st.open_selection_stay_in_broot(&screen(), true, false) {
        AppStateCmdResult::NewRoot { path, in_new_panel, .. } => {
            assert_eq!(path, vec!["project", "src"]);
            assert!(in_new_panel);
        }
        _ => panic!("expected a new root"),
    }
    st.tree.selection = 1;
    match st.open_selection_stay_in_broot(&screen(), false, false) {
        AppStateCmdResult::Open { path: LaunchPath::Entry(path) } => {
            assert_eq!(path, vec!["project", "README.md"])
        }
        _ => panic!("expected an open"),
    }
}

#[test]
fn open_leave_needs_shell_function_for_dirs() {
    let mut st = state();
    match st.open_selection_quit_broot(false) {
        AppStateCmdResult::DisplayError(m) => {
            assert_eq!(m, "This feature needs broot to be launched with the `br` script")
        }
        _ => panic!("expected an error"),
    }
    assert!(matches!(st.open_selection_quit_broot(true), AppStateCmdResult::ExportCd { .. }));
    st.tree.selection = 2;
    match st.open_selection_quit_broot(false) {
        AppStateCmdResult::Launch { launchable: Launchable::Opener { path: LaunchPath::Entry(path) } } => {
            assert_eq!(path, vec!["project", "main.c"])
        }
        _ => panic!("expected an opener"),
    }
}

#[test]
fn executable_is_launched_or_exported() {
    let mut fs = project();
    fs.entries[4].is_exe = true;
    let mut dam = Dam::unlimited();
    let mut st = BrowserState::new(fs, TreeOptions::new(), &screen(), &mut dam).unwrap().unwrap();
    st.tree.selection = 2;
    assert!(matches!(
        st.open_selection_quit_broot(false),
        AppStateCmdResult::Launch { launchable: Launchable::Program { .. } }
    ));
    assert!(matches!(st.open_selection_quit_broot(true), AppStateCmdResult::ExportPath { .. }));
}

#[test]
fn build_errors() {
    let mut dam = Dam::unlimited();
    let empty = FsSnapshot { root: vec!["nowhere".to_string()], entries: Vec::new() };
    assert_eq!(
        BrowserState::new(empty, TreeOptions::new(), &screen(), &mut dam).err(),
        Some(TreeBuildError::NotFound)
    );
    let file = FsSnapshot {
        root: vec!["a.txt".to_string()],
        entries: vec![entry("a.txt", 0, 0, TreeLineType::File)],
    };
    assert_eq!(
        BrowserState::new(file, TreeOptions::new(), &screen(), &mut dam).err(),
        Some(TreeBuildError::NotADirectory)
    );
}

#[test]
fn interrupted_construction_gives_nothing() {
    let mut dam = Dam::armed(1);
    let r = BrowserState::new(project(), TreeOptions::new(), &screen(), &mut dam).unwrap();
    assert!(r.is_none());
    let mut dam = Dam::armed(3);
    let r = BrowserState::new(project(), TreeOptions::new(), &screen(), &mut dam).unwrap();
    assert!(r.is_some());
    assert_eq!(dam, Dam::armed(0));
}

#[test]
fn sort_toggle_is_two_state() {
    let mut st = state();
    let sorted = match run(&mut st, Internal::SortBySize) {
        AppStateCmdResult::NewState { state, .. } => state,
        _ => panic!("expected a new state"),
    };
    assert_eq!(sorted.tree.options.sort, Sort::Size);
    assert!(!sorted.tree.options.show_sizes);
    assert_eq!(sorted.get_pending_task(), Some(PendingTask::ComputingStats));
    let mut sorted = *sorted;
    let back = match run(&mut sorted, Internal::SortBySize) {
        AppStateCmdResult::NewState { state, .. } => state,
        _ => panic!("expected a new state"),
    };
    assert_eq!(back.tree.options.sort, Sort::Unsorted);
    assert!(!back.tree.options.show_sizes);
    assert_eq!(back.get_pending_task(), None);
}

#[test]
fn dir_sums_are_computed_one_per_tick() {
    let mut st = state();
    let mut sized = match run(&mut st, Internal::ToggleSizes) {
        AppStateCmdResult::NewState { state, .. } => *state,
        _ => panic!("expected a new state"),
    };
    assert_eq!(sized.get_pending_task(), Some(PendingTask::ComputingStats));
    let mut dam = Dam::unlimited();
    assert_eq!(sized.do_pending_task(&screen(), &mut dam), TaskOutcome::SumComputed);
    let root_sum = sized.tree.lines[0].sum.unwrap();
    assert_eq!(root_sum.count, 6);
    assert_eq!(root_sum.size, 70);
    assert_eq!(sized.do_pending_task(&screen(), &mut dam), TaskOutcome::SumComputed);
    let src_sum = sized.tree.lines[3].sum.unwrap();
    assert_eq!(src_sum.count, 1);
    assert_eq!(src_sum.size, 20);
    assert_eq!(sized.do_pending_task(&screen(), &mut dam), TaskOutcome::Nothing);
    assert_eq!(sized.get_pending_task(), None);
}

#[test]
fn git_status_is_asked_for() {
    let mut st = state();
    let mut with_git = match run(&mut st, Internal::ToggleGitFileInfo) {
        AppStateCmdResult::NewState { state, .. } => *state,
        _ => panic!("expected a new state"),
    };
    let mut dam = Dam::unlimited();
    assert_eq!(with_git.do_pending_task(&screen(), &mut dam), TaskOutcome::GitStatusNeeded);
    with_git.set_git_status(broot_core::tree::TreeGitStatus {
        current_branch: "main".to_string(),
        insertions: 1,
        deletions: 2,
    });
    assert_eq!(with_git.do_pending_task(&screen(), &mut dam), TaskOutcome::Nothing);
}

#[test]
fn verb_arity_is_checked() {
    let mut st = state();
    let verb = Verb {
        name: "quit".to_string(),
        arity: VerbArity::NoArg,
        execution: VerbExecution::Internal { internal: Internal::Quit, bang: false },
    };
    let inv = VerbInvocation { name: "quit".to_string(), args: Some("x".to_string()), bang: false };
    assert!(matches!(
        st.execute_verb(&verb, Some(&inv), &ctx(), &screen()),
        AppStateCmdResult::DisplayError(_)
    ));
    assert!(matches!(st.execute_verb(&verb, None, &ctx(), &screen()), AppStateCmdResult::Quit));
    let edit = Verb {
        name: "edit".to_string(),
        arity: VerbArity::RequiredArg,
        execution: VerbExecution::External { template: "vi {file}".to_string() },
    };
    let bare = VerbInvocation { name: "edit".to_string(), args: None, bang: false };
    assert!(matches!(
        st.execute_verb(&edit, Some(&bare), &ctx(), &screen()),
        AppStateCmdResult::DisplayError(_)
    ));
    // a verb triggered without typed invocation runs as is
    assert!(matches!(
        st.execute_verb(&edit, None, &ctx(), &screen()),
        AppStateCmdResult::External { args: None, .. }
    ));
    let inv = VerbInvocation { name: "edit".to_string(), args: Some("+3".to_string()), bang: false };
    match st.execute_verb(&edit, Some(&inv), &ctx(), &screen()) {
        AppStateCmdResult::External { template, path, args } => {
            assert_eq!(template, "vi {file}");
            assert_eq!(path, vec!["project"]);
            assert_eq!(args, Some("+3".to_string()));
        }
        _ => panic!("expected an external hand-off"),
    }
}

#[test]
fn page_height_leaves_two_rows() {
    assert_eq!(BrowserState::page_height(&screen()), 18);
    assert_eq!(BrowserState::page_height(&Screen { width: 10, height: 1 }), -1);
}

fn toggled_state(st: &mut BrowserState, internal: Internal) -> BrowserState {
    match run(st, internal) {
        AppStateCmdResult::NewState { state, .. } => *state,
        _ => panic!("expected a new state"),
    }
}

#[test]
fn git_status_filter_shows_hidden_then_restores() {
    let mut st = state();
    let mut filtered = toggled_state(&mut st, Internal::ToggleGitStatus);
    assert!(filtered.tree.options.filter_by_git_status);
    assert!(!filtered.tree.options.show_hidden);
    assert!(names(&filtered).contains(&".git".to_string()));
    let back = toggled_state(&mut filtered, Internal::ToggleGitStatus);
    assert!(!back.tree.options.filter_by_git_status);
    assert!(!back.tree.options.show_hidden);
    assert_eq!(names(&back), names(&st));
    assert_eq!(back.root(), st.root());
}

#[test]
fn sort_keeps_shown_figures() {
    let mut st = state();
    let mut counted = toggled_state(&mut st, Internal::ToggleCounts);
    let mut sorted = toggled_state(&mut counted, Internal::SortByCount);
    assert_eq!(sorted.tree.options.sort, Sort::Count);
    let back = toggled_state(&mut sorted, Internal::SortByCount);
    assert_eq!(back.tree.options.sort, Sort::Unsorted);
    assert!(back.tree.options.show_counts);
}

#[test]
fn link_to_file_opens_its_target() {
    let mut fs = project();
    fs.entries.push(entry("latest", 0, 1, TreeLineType::SymLinkToFile("src/lib.c".to_string())));
    let mut dam = Dam::unlimited();
    let mut st = BrowserState::new(fs, TreeOptions::new(), &screen(), &mut dam).unwrap().unwrap();
    st.tree.selection = 5;
    assert_eq!(st.tree.lines[5].name, "latest");
    match st.open_selection_quit_broot(false) {
        AppStateCmdResult::Launch { launchable: Launchable::Opener { path: LaunchPath::LinkTarget(t) } } => {
            assert_eq!(t, "src/lib.c")
        }
        _ => panic!("expected an opener on the target"),
    }
    match st.open_selection_stay_in_broot(&screen(), false, false) {
        AppStateCmdResult::Open { path: LaunchPath::LinkTarget(t) } => assert_eq!(t, "src/lib.c"),
        _ => panic!("expected an open on the target"),
    }
}

#[test]
fn refresh_keeps_the_filtered_tree() {
    let mut st = filtered_on_lib();
    let mut fs = project();
    fs.entries.push(entry("libm.c", 5, 2, TreeLineType::File));
    let pattern = st.refresh(fs, &screen());
    assert_eq!(pattern.raw, "lib");
    assert_eq!(names(&st), vec!["project", "src", "lib.c", "libm.c"]);
    assert_eq!(st.tree.lines.len(), 6);
}

#[test]
fn verb_errors_have_messages() {
    let mut st = state();
    match run(&mut st, Internal::TotalSearch) {
        AppStateCmdResult::DisplayError(m) => assert_eq!(m, "this verb can be used only after a search"),
        _ => panic!("expected an error"),
    }
    let mut st = filtered_on_lib();
    match run(&mut st, Internal::TotalSearch) {
        AppStateCmdResult::DisplayError(m) => {
            assert_eq!(m, "search was already total - all children have been rated")
        }
        _ => panic!("expected an error"),
    }
    let verb = Verb {
        name: "quit".to_string(),
        arity: VerbArity::NoArg,
        execution: VerbExecution::Internal { internal: Internal::Quit, bang: false },
    };
    let inv = VerbInvocation { name: "quit".to_string(), args: Some("x".to_string()), bang: false };
    match st.execute_verb(&verb, Some(&inv), &ctx(), &screen()) {
        AppStateCmdResult::DisplayError(m) => assert_eq!(m, "this verb takes no argument"),
        _ => panic!("expected an error"),
    }
}

#[test]
fn page_down_on_a_short_tree_moves_nothing() {
    let mut st = state();
    run(&mut st, Internal::PageDown);
    assert_eq!(st.displayed_tree().selection, 0);
    assert_eq!(st.displayed_tree().scroll, 0);
}
