//! Verbs on a tree panel: the built-in ones, handled here, and the external
//! ones, handed to the launcher.

use vstd::prelude::*;
use crate::browser_state::{
    displayed_of, is_toggle, open_leave_spec, open_stay_spec, page_height_spec, parent_spec,
    selected_path_of, toggle_result, with_displayed, AppStateCmdResult, BrowserState, CmdContext,
    HDir, Internal, PanelPurpose, Screen,
};
use crate::tree::{
    clamp_scroll, dir_like, first_line_of, first_match_in, last_match_in, rows, scroll_to_show,
    select_in_view, Tree, TreeLineType,
};

verus! {

/// A verb as the user typed it.
#[derive(Clone, Debug)]
pub struct VerbInvocation {
    pub name: String,
    pub args: Option<String>,
    pub bang: bool,
}

/// A built-in verb with its default `bang` (alternate form).
#[derive(Clone, Copy, Debug, PartialEq, Eq, Structural)]
pub struct InternalExecution {
    pub internal: Internal,
    pub bang: bool,
}

/// How a verb runs.
#[derive(Debug)]
pub enum VerbExecution {
    Internal { internal: Internal, bang: bool },
    /// A command template run on the selected path.
    External { template: String },
}

/// Whether a verb takes an argument.
#[derive(Clone, Copy, Debug, PartialEq, Eq, Structural)]
pub enum VerbArity {
    NoArg,
    OptionalArg,
    RequiredArg,
}

/// A verb the user can invoke by name.
#[derive(Debug)]
pub struct Verb {
    pub name: String,
    pub arity: VerbArity,
    pub execution: VerbExecution,
}

/// Whether an invocation's arguments fit a verb's arity.
pub open spec fn arity_fits(arity: VerbArity, has_args: bool) -> bool {
    match arity {
        VerbArity::NoArg => !has_args,
        VerbArity::OptionalArg => true,
        VerbArity::RequiredArg => has_args,
    }
}

/// The `bang` of an invocation, else the verb's own.
pub open spec fn bang_of(exec: InternalExecution, inv: Option<&VerbInvocation>) -> bool {
    match inv {
        Some(i) => i.bang,
        None => exec.bang,
    }
}

/// Whether a verb only moves the selection or the view of the displayed tree.
pub open spec fn is_navigation(i: Internal) -> bool {
    match i {
        Internal::LineDown | Internal::LineUp | Internal::PreviousMatch | Internal::NextMatch
        | Internal::PageDown | Internal::PageUp | Internal::SelectFirst | Internal::SelectLast => true,
        _ => false,
    }
}

/// `b` is `t` with the selection at `sel` and the view from `scroll`.
pub open spec fn moved_to(t: Tree, b: Tree, sel: int, scroll: int) -> bool {
    b == (Tree { selection: b.selection, scroll: b.scroll, ..t }) && b.selection == sel && b.scroll
        == scroll
}

/// `b` is `t` with the selection at `sel`, the view unchanged.
pub open spec fn selected_at(t: Tree, b: Tree, sel: Option<int>) -> bool {
    match sel {
        Some(k) => b == (Tree { selection: k as usize, ..t }),
        None => b == t,
    }
}

/// What a navigation verb does to the displayed tree `t`, on a page of
/// `ph` rows: `b` is the tree after it.
pub open spec fn nav_spec(i: Internal, t: Tree, b: Tree, ph: int) -> bool {
    let n = t.lines@.len() as int;
    let h = rows(ph as i32);
    match i {
        Internal::LineDown => {
            let s = (t.selection + 1) % n;
            moved_to(t, b, s, scroll_to_show(t.scroll as int, s, h))
        },
        Internal::LineUp => {
            let s = (t.selection - 1) % n;
            moved_to(t, b, s, scroll_to_show(t.scroll as int, s, h))
        },
        Internal::SelectFirst => moved_to(t, b, 0, 0),
        Internal::SelectLast => moved_to(t, b, n - 1, scroll_to_show(t.scroll as int, n - 1, h)),
        Internal::NextMatch => selected_at(
            t,
            b,
            match first_match_in(t.lines@, t.selection + 1, n) {
                Some(k) => Some(k),
                None => first_match_in(t.lines@, 0, t.selection + 1),
            },
        ),
        Internal::PreviousMatch => selected_at(
            t,
            b,
            match last_match_in(t.lines@, 0, t.selection as int) {
                Some(k) => Some(k),
                None => last_match_in(t.lines@, t.selection as int, n),
            },
        ),
        Internal::PageDown | Internal::PageUp => if ph < 0 || ph < n {
            let sc = clamp_scroll(
                t.scroll + if i == Internal::PageDown {
                    ph
                } else {
                    -ph
                },
                n,
                h,
            );
            moved_to(t, b, select_in_view(t.selection as int, sc, h), sc)
        } else {
            b == t
        },
        _ => b == t,
    }
}

/// What "back" does: collapse the filtered tree onto the base one, keeping
/// the selected entry; else go to the root line; else leave the panel.
pub open spec fn back_spec(a: BrowserState, b: BrowserState, r: AppStateCmdResult) -> bool {
    match a.filtered_tree {
        Some(ft) => {
            let e = ft.lines@[ft.selection as int].entry as int;
            &&& r is Keep
            &&& b == (BrowserState {
                tree: match first_line_of(a.tree.lines@, e, a.tree.lines@.len() as int) {
                    Some(k) => Tree { selection: k as usize, ..a.tree },
                    None => a.tree,
                },
                filtered_tree: None,
                ..a
            })
        },
        None => if a.tree.selection > 0 {
            r is Keep && b == (BrowserState { tree: Tree { selection: 0, ..a.tree }, ..a })
        } else {
            r is PopState && b == a
        },
    }
}

/// What "total search" does: ask the last search again, visiting every entry.
pub open spec fn total_search_spec(a: BrowserState, b: BrowserState, r: AppStateCmdResult) -> bool {
    match a.filtered_tree {
        Some(ft) => if ft.total_search {
            b == a && (r matches AppStateCmdResult::DisplayError(m) && m@
                == "search was already total - all children have been rated"@)
        } else {
            r is Keep && b == (BrowserState {
                pending_pattern: ft.options.pattern,
                total_search_required: true,
                ..a
            })
        },
        None => b == a && (r matches AppStateCmdResult::DisplayError(m) && m@
            == "this verb can be used only after a search"@),
    }
}

/// Where "focus" goes: the selected directory, or the selected file's parent.
pub open spec fn focus_target(st: BrowserState) -> Seq<String> {
    let t = displayed_of(st);
    let path = selected_path_of(st);
    if !dir_like(t.lines@[t.selection as int].line_type) && path.len() > 0 {
        path.drop_last()
    } else {
        path
    }
}

/// A request for a state on `path` with the displayed tree's options.
pub open spec fn focus_spec(st: BrowserState, path: Seq<String>, bang: bool, r: AppStateCmdResult) -> bool {
    r matches AppStateCmdResult::NewRoot { path: p, options, in_new_panel } && p@ == path && options
        == st.displayed().options && in_new_panel == bang
}

/// A request for a new panel on `path` with the displayed tree's options.
pub open spec fn panel_spec(
    st: BrowserState,
    path: Seq<String>,
    purpose: PanelPurpose,
    dir: HDir,
    r: AppStateCmdResult,
) -> bool {
    r matches AppStateCmdResult::NewPanel { path: p, options, purpose: q, dir: d } && p@ == path
        && options == st.displayed().options && q == purpose && d == dir
}

/// What the built-in verbs that leave the panel's state as it is ask for.
pub open spec fn hand_off_spec(
    i: Internal,
    bang: bool,
    inv: Option<&VerbInvocation>,
    st: BrowserState,
    cc: CmdContext,
    r: AppStateCmdResult,
) -> bool {
    let t = st.displayed();
    let path = selected_path_of(st);
    match i {
        Internal::CopyPath => r matches AppStateCmdResult::CopyPath { path: p } && p@ == path,
        Internal::PrintPath => r matches AppStateCmdResult::PrintPath { path: p, relative } && p@
            == path && !relative,
        Internal::PrintRelativePath => r matches AppStateCmdResult::PrintPath { path: p, relative }
            && p@ == path && relative,
        Internal::PrintTree => r is PrintTree,
        Internal::Refresh => r == (AppStateCmdResult::RefreshState { clear_cache: true }),
        Internal::Help => r == (AppStateCmdResult::Help { in_new_panel: bang }),
        Internal::Quit => r is Quit,
        Internal::Focus => focus_spec(st, focus_target(st), bang, r),
        Internal::FocusRoot => focus_spec(st, Seq::empty(), bang, r),
        Internal::FocusUserHome => r matches AppStateCmdResult::FocusUserHome { options, in_new_panel }
            && options == t.options && in_new_panel == bang,
        Internal::UpTree => if st.fs.root@.len() > 0 {
            focus_spec(st, st.fs.root@.drop_last(), bang, r)
        } else {
            r matches AppStateCmdResult::DisplayError(m) && m@ == "no parent found"@
        },
        Internal::Parent => parent_spec(st, bang, r),
        Internal::OpenStay => open_stay_spec(st, bang, false, r),
        Internal::OpenStayFilter => open_stay_spec(st, bang, true, r),
        Internal::OpenLeave => open_leave_spec(st, cc.has_export_path, r),
        Internal::PanelLeft => if !cc.is_first_panel {
            r == (AppStateCmdResult::HandleInApp { internal: Internal::PanelLeft })
        } else if cc.has_preview && cc.nb_panels == 2 {
            r == (AppStateCmdResult::ClosePanel { validate_purpose: false, close_preview: true })
        } else {
            panel_spec(st, path, PanelPurpose::NoPurpose, HDir::Left, r)
        },
        Internal::PanelRight => if !cc.is_last_panel {
            r == (AppStateCmdResult::HandleInApp { internal: Internal::PanelRight })
        } else {
            panel_spec(
                st,
                path,
                if t.lines@[t.selection as int].line_type is File && !cc.has_preview {
                    PanelPurpose::Preview
                } else {
                    PanelPurpose::NoPurpose
                },
                HDir::Right,
                r,
            )
        },
        Internal::StartEndPanel => if cc.arg_edition {
            r == (AppStateCmdResult::ClosePanel { validate_purpose: true, close_preview: false })
        } else {
            match inv {
                Some(v) => match v.args {
                    Some(a) => r matches AppStateCmdResult::NewPanelFromArg { root, arg, options }
                        && root@ == st.fs.root@ && arg == a && options == t.options,
                    None => panel_spec(st, st.fs.root@, PanelPurpose::ArgEdition, HDir::Right, r),
                },
                None => panel_spec(st, path, PanelPurpose::NoPurpose, HDir::Right, r),
            }
        },
        _ => true,
    }
}

/// The whole effect of built-in verb `i`, with its `bang`: `a` is the state
/// before, `b` the state after, `r` the result.
pub open spec fn internal_effect(
    i: Internal,
    bang: bool,
    inv: Option<&VerbInvocation>,
    a: BrowserState,
    b: BrowserState,
    r: AppStateCmdResult,
    cc: CmdContext,
    screen: Screen,
) -> bool {
    if is_navigation(i) {
        r is Keep && b == with_displayed(a, displayed_of(b)) && nav_spec(
            i,
            displayed_of(a),
            displayed_of(b),
            page_height_spec(screen),
        )
    } else if i == Internal::Back {
        back_spec(a, b, r)
    } else if i == Internal::TotalSearch {
        total_search_spec(a, b, r)
    } else if is_toggle(i) {
        b == a && toggle_result(a, i, bang, screen, r)
    } else {
        b == a && hand_off_spec(i, bang, inv, a, cc, r)
    }
}

/// The message for an invocation that does not fit a verb's arity.
pub open spec fn arity_error(arity: VerbArity) -> Seq<char> {
    match arity {
        VerbArity::NoArg => "this verb takes no argument"@,
        _ => "this verb needs an argument"@,
    }
}

fn is_navigation_exec(i: Internal) -> (r: bool)
    ensures
        r == is_navigation(i),
{
    match i {
        Internal::LineDown | Internal::LineUp | Internal::PreviousMatch | Internal::NextMatch
        | Internal::PageDown | Internal::PageUp | Internal::SelectFirst | Internal::SelectLast => true,
        _ => false,
    }
}

fn is_toggle_exec(i: Internal) -> (r: bool)
    ensures
        r == is_toggle(i),
{
    match i {
        Internal::SortByCount | Internal::SortByDate | Internal::SortBySize | Internal::NoSort
        | Internal::ToggleCounts | Internal::ToggleDates | Internal::ToggleFiles
        | Internal::ToggleHidden | Internal::ToggleGitIgnore | Internal::ToggleGitFileInfo
        | Internal::ToggleGitStatus | Internal::TogglePerm | Internal::ToggleSizes
        | Internal::ToggleTrimRoot => true,
        _ => false,
    }
}

impl Verb {
    /// Why an invocation does not fit this verb, if it does not.
    pub fn match_error(&self, invocation: &VerbInvocation) -> (r: Option<String>)
        ensures
            r is None <==> arity_fits(self.arity, invocation.args is Some),
            r matches Some(m) ==> m@ == arity_error(self.arity),
    {
        match self.arity {
            VerbArity::NoArg => if invocation.args.is_some() {
                Some("this verb takes no argument".to_owned())
            } else {
                None
            },
            VerbArity::OptionalArg => None,
            VerbArity::RequiredArg => if invocation.args.is_none() {
                Some("this verb needs an argument".to_owned())
            } else {
                None
            },
        }
    }
}

/// Asks for a state on `path`, with the tree's options, pattern included.
pub fn focus_path(path: Vec<String>, tree: &Tree, in_new_panel: bool) -> (r: AppStateCmdResult)
    ensures
        r matches AppStateCmdResult::NewRoot { path: p, options, in_new_panel: q } && p@ == path@
            && options == tree.options && q == in_new_panel,
{
    AppStateCmdResult::NewRoot { path, options: tree.options.clone(), in_new_panel }
}

impl BrowserState {
    /// Runs a built-in verb.
    pub fn on_internal(
        &mut self,
        internal_exec: &InternalExecution,
        input_invocation: Option<&VerbInvocation>,
        cc: &CmdContext,
        screen: &Screen,
    ) -> (r: AppStateCmdResult)
        requires
            old(self).wf(),
        ensures
            final(self).wf(),
            internal_effect(
                internal_exec.internal,
                bang_of(*internal_exec, input_invocation),
                input_invocation,
                *old(self),
                *final(self),
                r,
                *cc,
                *screen,
            ),
    {
        let page_height = BrowserState::page_height(screen);
        let bang = match input_invocation {
            Some(inv) => inv.bang,
            None => internal_exec.bang,
        };
        let i = internal_exec.internal;
        if is_navigation_exec(i) {
            self.navigate(i, page_height)
        } else if i == Internal::Back {
            self.back()
        } else if i == Internal::TotalSearch {
            self.total_search()
        } else if is_toggle_exec(i) {
            self.with_new_options(screen, i, bang)
        } else {
            self.hand_off(i, bang, input_invocation, cc, screen)
        }
    }

    /// Moves the selection or the view of the displayed tree.
    fn navigate(&mut self, i: Internal, page_height: i32) -> (r: AppStateCmdResult)
        requires
            old(self).wf(),
            is_navigation(i),
            page_height > i32::MIN,
        ensures
            final(self).wf(),
            r is Keep,
            *final(self) == with_displayed(*old(self), displayed_of(*final(self))),
            nav_spec(i, displayed_of(*old(self)), displayed_of(*final(self)), page_height as int),
    {
        match i {
            Internal::LineDown => {
                self.displayed_tree_mut().move_selection(1, page_height);
                AppStateCmdResult::Keep
            },
            Internal::LineUp => {
                self.displayed_tree_mut().move_selection(-1, page_height);
                AppStateCmdResult::Keep
            },
            Internal::PreviousMatch => {
                self.displayed_tree_mut().try_select_previous_match();
                AppStateCmdResult::Keep
            },
            Internal::NextMatch => {
                self.displayed_tree_mut().try_select_next_match();
                AppStateCmdResult::Keep
            },
            Internal::PageDown => {
                let n = self.displayed_tree().lines.len();
                if page_height < 0 || (page_height as usize) < n {
                    self.displayed_tree_mut().try_scroll(page_height, page_height);
                }
                AppStateCmdResult::Keep
            },
            Internal::PageUp => {
                let n = self.displayed_tree().lines.len();
                if page_height < 0 || (page_height as usize) < n {
                    self.displayed_tree_mut().try_scroll(0 - page_height, page_height);
                }
                AppStateCmdResult::Keep
            },
            Internal::SelectFirst => {
                self.displayed_tree_mut().try_select_first();
                AppStateCmdResult::Keep
            },
            Internal::SelectLast => {
                self.displayed_tree_mut().try_select_last(page_height);
                AppStateCmdResult::Keep
            },
            _ => AppStateCmdResult::Keep,
        }
    }

    /// "Back": collapse the filtered tree, else go to the root line, else
    /// leave the panel.
    fn back(&mut self) -> (r: AppStateCmdResult)
        requires
            old(self).wf(),
        ensures
            final(self).wf(),
            back_spec(*old(self), *final(self), r),
    {
        match &self.filtered_tree {
            Some(ft) => {
                let e = ft.lines[ft.selection].entry;
                self.tree.try_select_entry(e);
                self.filtered_tree = None;
                AppStateCmdResult::Keep
            },
            None => {
                if self.tree.selection > 0 {
                    self.tree.selection = 0;
                    AppStateCmdResult::Keep
                } else {
                    AppStateCmdResult::PopState
                }
            },
        }
    }

    /// Asks the last search again, visiting every entry.
    fn total_search(&mut self) -> (r: AppStateCmdResult)
        requires
            old(self).wf(),
        ensures
            final(self).wf(),
            total_search_spec(*old(self), *final(self), r),
    {
        match &self.filtered_tree {
            Some(tree) => {
                if tree.total_search {
                    AppStateCmdResult::DisplayError(
                        "search was already total - all children have been rated".to_owned(),
                    )
                } else {
                    self.pending_pattern = tree.options.pattern.clone();
                    self.total_search_required = true;
                    AppStateCmdResult::Keep
                }
            },
            None => AppStateCmdResult::DisplayError(
                "this verb can be used only after a search".to_owned(),
            ),
        }
    }

    /// The built-in verbs that leave the panel's state as it is.
    fn hand_off(
        &mut self,
        i: Internal,
        bang: bool,
        input_invocation: Option<&VerbInvocation>,
        cc: &CmdContext,
        screen: &Screen,
    ) -> (r: AppStateCmdResult)
        requires
            old(self).wf(),
        ensures
            *final(self) == *old(self),
            hand_off_spec(i, bang, input_invocation, *old(self), *cc, r),
    {
        match i {
            Internal::CopyPath => AppStateCmdResult::CopyPath { path: self.selected_path() },
            Internal::Focus => {
                let tree = self.displayed_tree();
                let line = &tree.lines[tree.selection];
                let mut path = self.selected_path();
                if !line.line_type.is_dir_like() && path.len() > 0 {
                    path.pop();
                    proof {
                        assert(path@ =~= selected_path_of(*old(self)).drop_last());
                    }
                }
                focus_path(path, tree, bang)
            },
            Internal::FocusRoot => focus_path(Vec::new(), self.displayed_tree(), bang),
            Internal::FocusUserHome => AppStateCmdResult::FocusUserHome {
                options: self.displayed_tree().options.clone(),
                in_new_panel: bang,
            },
            Internal::Help => AppStateCmdResult::Help { in_new_panel: bang },
            Internal::UpTree => {
                let tree = self.displayed_tree();
                let mut path = self.fs.duplicate().root;
                if path.len() > 0 {
                    path.pop();
                    proof {
                        assert(path@ =~= old(self).fs.root@.drop_last());
                    }
                    focus_path(path, tree, bang)
                } else {
                    AppStateCmdResult::DisplayError("no parent found".to_owned())
                }
            },
            Internal::OpenStay => self.open_selection_stay_in_broot(screen, bang, false),
            Internal::OpenStayFilter => self.open_selection_stay_in_broot(screen, bang, true),
            Internal::OpenLeave => self.open_selection_quit_broot(cc.has_export_path),
            Internal::PanelLeft => {
                if cc.is_first_panel {
                    if cc.has_preview && cc.nb_panels == 2 {
                        AppStateCmdResult::ClosePanel { validate_purpose: false, close_preview: true }
                    } else {
                        AppStateCmdResult::NewPanel {
                            path: self.selected_path(),
                            options: self.displayed_tree().options.clone(),
                            purpose: PanelPurpose::NoPurpose,
                            dir: HDir::Left,
                        }
                    }
                } else {
                    AppStateCmdResult::HandleInApp { internal: Internal::PanelLeft }
                }
            },
            Internal::PanelRight => {
                if cc.is_last_panel {
                    let tree = self.displayed_tree();
                    let is_file = match &tree.lines[tree.selection].line_type {
                        TreeLineType::File => true,
                        _ => false,
                    };
                    let purpose = if is_file && !cc.has_preview {
                        PanelPurpose::Preview
                    } else {
                        PanelPurpose::NoPurpose
                    };
                    AppStateCmdResult::NewPanel {
                        path: self.selected_path(),
                        options: tree.options.clone(),
                        purpose,
                        dir: HDir::Right,
                    }
                } else {
                    AppStateCmdResult::HandleInApp { internal: Internal::PanelRight }
                }
            },
            Internal::Parent => self.go_to_parent(screen, bang),
            Internal::PrintPath => AppStateCmdResult::PrintPath {
                path: self.selected_path(),
                relative: false,
            },
            Internal::PrintRelativePath => AppStateCmdResult::PrintPath {
                path: self.selected_path(),
                relative: true,
            },
            Internal::PrintTree => AppStateCmdResult::PrintTree,
            Internal::Refresh => AppStateCmdResult::RefreshState { clear_cache: true },
            Internal::StartEndPanel => {
                if cc.arg_edition {
                    AppStateCmdResult::ClosePanel { validate_purpose: true, close_preview: false }
                } else {
                    let options = self.displayed_tree().options.clone();
                    match input_invocation {
                        Some(inv) => match &inv.args {
                            Some(arg) => AppStateCmdResult::NewPanelFromArg {
                                root: self.fs.duplicate().root,
                                arg: arg.clone(),
                                options,
                            },
                            None => AppStateCmdResult::NewPanel {
                                path: self.fs.duplicate().root,
                                options,
                                purpose: PanelPurpose::ArgEdition,
                                dir: HDir::Right,
                            },
                        },
                        None => AppStateCmdResult::NewPanel {
                            path: self.selected_path(),
                            options,
                            purpose: PanelPurpose::NoPurpose,
                            dir: HDir::Right,
                        },
                    }
                }
            },
            Internal::Quit => AppStateCmdResult::Quit,
            _ => AppStateCmdResult::Keep,
        }
    }

    /// Runs a verb: refuses an invocation that does not fit it, runs a
    /// built-in one as `on_internal` does, hands an external one to the launcher.
    pub fn execute_verb(
        &mut self,
        verb: &Verb,
        user_invocation: Option<&VerbInvocation>,
        cc: &CmdContext,
        screen: &Screen,
    ) -> (r: AppStateCmdResult)
        requires
            old(self).wf(),
        ensures
            final(self).wf(),
            if user_invocation matches Some(inv) && !arity_fits(verb.arity, inv.args is Some) {
                *final(self) == *old(self) && (r matches AppStateCmdResult::DisplayError(m) && m@
                    == arity_error(verb.arity))
            } else {
                match verb.execution {
                    VerbExecution::External { template } => *final(self) == *old(self) && (r matches AppStateCmdResult::External {
                        template: t,
                        path,
                        args,
                    } && t == template && path@ == selected_path_of(*old(self)) && args == match user_invocation {
                        Some(inv) => inv.args,
                        None => None,
                    }),
                    VerbExecution::Internal { internal, bang } => internal_effect(
                        internal,
                        bang_of(InternalExecution { internal, bang }, user_invocation),
                        user_invocation,
                        *old(self),
                        *final(self),
                        r,
                        *cc,
                        *screen,
                    ),
                }
            },
    {
        match user_invocation {
            Some(inv) => match verb.match_error(inv) {
                Some(err) => {
                    return AppStateCmdResult::DisplayError(err);
                },
                None => {},
            },
            None => {},
        }
        match &verb.execution {
            VerbExecution::Internal { internal, bang } => {
                let exec = InternalExecution { internal: *internal, bang: *bang };
                self.on_internal(&exec, user_invocation, cc, screen)
            },
            VerbExecution::External { template } => AppStateCmdResult::External {
                template: template.clone(),
                path: self.selected_path(),
                args: match user_invocation {
                    Some(inv) => inv.args.clone(),
                    None => None,
                },
            },
        }
    }
}

} // verus!
