use broot_core::browser_state::{toggle_options, Internal};
use broot_core::dam::Dam;
use broot_core::pattern::InputPattern;
use broot_core::tree::{FsEntry, FsSnapshot, Sort, TreeLineType, TreeOptions};
use broot_core::tree_build::{TreeBuildError, TreeBuilder};

fn entry(name: &str, parent: usize, depth: usize, line_type: TreeLineType) -> FsEntry {
    FsEntry { name: name.to_string(), parent, depth, line_type, size: 1, is_exe: false, ignored: false }
}

/// A root holding `n` files.
fn wide(n: usize) -> FsSnapshot {
    let mut entries = vec![entry("root", 0, 0, TreeLineType::Dir)];
    for i in 0..n {
        entries.push(entry(&format!("f{}", i), 0, 1, TreeLineType::File));
    }
    FsSnapshot { root: vec!["root".to_string()], entries }
}

#[test]
fn budget_bounds_lines_with_pruning_marker() {
    let fs = wide(20);
    let b = TreeBuilder::from(&fs, TreeOptions::new(), 5).ok().unwrap();
    let mut dam = Dam::unlimited();
    let t = b.build(&fs, false, &mut dam).unwrap();
    assert_eq!(t.lines.len(), 5);
    assert!(!t.total_search);
    match t.lines[4].line_type {
        TreeLineType::Pruning { count } => assert_eq!(count, 17),
        _ => panic!("expected a pruning line"),
    }
    assert_eq!(t.lines[3].name, "f2");
}

#[test]
fn exhaustive_build_ignores_budget() {
    let fs = wide(20);
    let b = TreeBuilder::from(&fs, TreeOptions::new(), 5).ok().unwrap();
    let mut dam = Dam::unlimited();
    let t = b.build(&fs, true, &mut dam).unwrap();
    assert_eq!(t.lines.len(), 21);
    assert!(t.total_search);
}

#[test]
fn budget_of_one_keeps_root_only() {
    let fs = wide(3);
    let b = TreeBuilder::from(&fs, TreeOptions::new(), 1).ok().unwrap();
    let mut dam = Dam::unlimited();
    let t = b.build(&fs, false, &mut dam).unwrap();
    assert_eq!(t.lines.len(), 1);
}

#[test]
fn zero_budget_is_refused() {
    let fs = wide(3);
    assert_eq!(TreeBuilder::from(&fs, TreeOptions::new(), 0).err(), Some(TreeBuildError::NoRoom));
}

#[test]
fn interrupted_builds_give_nothing() {
    let fs = wide(3);
    let mut o = TreeOptions::new();
    o.pattern = InputPattern::fuzzy("f".to_string());
    let b = TreeBuilder::from(&fs, o, 10).ok().unwrap();
    let mut dam = Dam::interrupted();
    assert!(b.build(&fs, false, &mut dam).is_none());
    let mut dam = Dam::armed(0);
    assert!(b.build(&fs, true, &mut dam).is_none());
    assert!(dam.is_interrupted());
    let mut dam = Dam::armed(1);
    assert!(b.build(&fs, false, &mut dam).is_some());
}

#[test]
fn dam_checkpoints() {
    let mut d = Dam::armed(1);
    assert!(!d.is_interrupted());
    assert!(!d.checkpoint());
    assert!(d.is_interrupted());
    assert!(d.checkpoint());
    let mut u = Dam::unlimited();
    u.interrupt();
    assert!(!u.checkpoint());
    let mut a = Dam::armed(5);
    a.interrupt();
    assert!(a.checkpoint());
}

#[test]
fn ignored_entries_follow_the_option() {
    let mut fs = wide(2);
    fs.entries[1].ignored = true;
    let b = TreeBuilder::from(&fs, TreeOptions::new(), 10).ok().unwrap();
    let mut dam = Dam::unlimited();
    assert_eq!(b.build(&fs, false, &mut dam).unwrap().lines.len(), 2);
    let mut o = TreeOptions::new();
    o.respect_git_ignore = false;
    o.only_folders = false;
    let b = TreeBuilder::from(&fs, o, 10).ok().unwrap();
    assert_eq!(b.build(&fs, false, &mut dam).unwrap().lines.len(), 3);
    let mut o = TreeOptions::new();
    o.only_folders = true;
    let b = TreeBuilder::from(&fs, o, 10).ok().unwrap();
    assert_eq!(b.build(&fs, false, &mut dam).unwrap().lines.len(), 1);
}

#[test]
fn toggling_twice_gives_options_back() {
    let toggles = [
        Internal::ToggleCounts,
        Internal::ToggleDates,
        Internal::ToggleFiles,
        Internal::ToggleHidden,
        Internal::ToggleGitIgnore,
        Internal::ToggleGitFileInfo,
        Internal::TogglePerm,
        Internal::ToggleSizes,
        Internal::ToggleTrimRoot,
        Internal::SortByCount,
        Internal::SortByDate,
        Internal::SortBySize,
        Internal::NoSort,
    ];
    for t in toggles {
        let o = TreeOptions::new();
        let twice = toggle_options(t, toggle_options(t, o.clone()));
        assert_eq!(twice.show_hidden, o.show_hidden);
        assert_eq!(twice.only_folders, o.only_folders);
        assert_eq!(twice.show_counts, o.show_counts);
        assert_eq!(twice.show_dates, o.show_dates);
        assert_eq!(twice.show_sizes, o.show_sizes);
        assert_eq!(twice.show_permissions, o.show_permissions);
        assert_eq!(twice.show_git_file_info, o.show_git_file_info);
        assert_eq!(twice.respect_git_ignore, o.respect_git_ignore);
        assert_eq!(twice.trim_root, o.trim_root);
        assert_eq!(twice.sort, o.sort);
    }
    let mut o = TreeOptions::new();
    o.show_hidden = true;
    let twice = toggle_options(Internal::ToggleGitStatus, toggle_options(Internal::ToggleGitStatus, o.clone()));
    assert_eq!(twice.filter_by_git_status, o.filter_by_git_status);
    assert!(twice.show_hidden);
    let once = toggle_options(Internal::ToggleGitStatus, TreeOptions::new());
    assert!(once.filter_by_git_status && !once.show_hidden);
    let mut o = TreeOptions::new();
    o.show_counts = true;
    let twice = toggle_options(Internal::SortByCount, toggle_options(Internal::SortByCount, o.clone()));
    assert!(twice.show_counts);
    assert_eq!(twice.sort, Sort::Unsorted);
    assert_eq!(toggle_options(Internal::SortByDate, TreeOptions::new()).sort, Sort::Date);
}
