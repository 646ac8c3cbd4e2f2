use better_bar::workspace::{prepare_workspace_info, sort_ids, WorkspaceAction, WorkspacePane};

#[test]
fn ids_sort_ascending() {
    assert_eq!(sort_ids(&vec![3, 1, 2]), vec![1, 2, 3]);
    assert_eq!(sort_ids(&vec![2, 2, 1]), vec![1, 2, 2]);
    assert_eq!(sort_ids(&Vec::new()), Vec::<i32>::new());
    assert_eq!(sort_ids(&vec![5]), vec![5]);
    assert_eq!(sort_ids(&vec![-1, 7, 0]), vec![-1, 0, 7]);
}

#[test]
fn prepared_info_is_sorted_with_a_default_active() {
    let (ids, cur) = prepare_workspace_info(&vec![4, 2, 1], Some(2));
    assert_eq!(ids, vec![1, 2, 4]);
    assert_eq!(cur, 2);
    let (_, fallback) = prepare_workspace_info(&vec![1], None);
    assert_eq!(fallback, 1);
}

#[test]
fn active_id_is_always_a_member_of_a_nonempty_list() {
    // a stale active id is replaced by the lowest workspace
    let (ids, cur) = prepare_workspace_info(&vec![4, 2], Some(9));
    assert_eq!(ids, vec![2, 4]);
    assert_eq!(cur, 2);
    // the default also yields a member when 1 is not among the ids
    let (ids2, cur2) = prepare_workspace_info(&vec![3, 2], None);
    assert_eq!(ids2, vec![2, 3]);
    assert_eq!(cur2, 2);
    // with no workspaces at all there is nothing to be a member of
    let (ids3, cur3) = prepare_workspace_info(&Vec::new(), Some(9));
    assert_eq!(ids3, Vec::<i32>::new());
    assert_eq!(cur3, 9);
}

#[test]
fn active_change_only_restyles() {
    let mut pane = WorkspacePane::new();
    let a = pane.update_workspaces(&vec![1, 2, 3], 1);
    assert_eq!(a, WorkspaceAction::Rebuild);
    let builds = pane.rebuild_count();

    // unchanged ids, changed active id: only the marker moves and the
    // rebuild counter stays where it was
    let a2 = pane.update_workspaces(&vec![1, 2, 3], 2);
    assert_eq!(a2, WorkspaceAction::RestyleActive);
    assert_eq!(pane.rebuild_count(), builds);
    assert_eq!(pane.shown_ids(), vec![1, 2, 3]);
    assert_eq!(pane.marked_id(), 2);
}

#[test]
fn changed_ids_rebuild_exactly_once() {
    let mut pane = WorkspacePane::new();
    pane.update_workspaces(&vec![1, 2, 3], 1);
    let builds = pane.rebuild_count();

    let (ids, cur) = prepare_workspace_info(&vec![4, 2, 1], Some(2));
    let a = pane.update_workspaces(&ids, cur);
    assert_eq!(a, WorkspaceAction::Rebuild);
    assert_eq!(pane.rebuild_count(), builds + 1);
    // the displayed set is the new ids, ascending, with the active marked
    assert_eq!(pane.shown_ids(), vec![1, 2, 4]);
    assert_eq!(pane.marked_id(), 2);
}

#[test]
fn identical_reading_is_a_no_op() {
    let mut pane = WorkspacePane::new();
    pane.update_workspaces(&vec![1, 2], 1);
    let builds = pane.rebuild_count();
    let shown = pane.shown_ids();
    let a = pane.update_workspaces(&vec![1, 2], 1);
    assert_eq!(a, WorkspaceAction::NoChange);
    assert_eq!(pane.rebuild_count(), builds);
    assert_eq!(pane.shown_ids(), shown);
}

#[test]
fn errors_show_the_placeholder_until_the_next_update() {
    let mut pane = WorkspacePane::new();
    pane.update_workspaces(&vec![1, 2], 1);
    pane.show_error();
    assert!(pane.error_displayed());
    assert_eq!(pane.shown_ids(), Vec::<i32>::new());
    pane.update_workspaces(&vec![1, 2, 3], 1);
    assert!(!pane.error_displayed());
    assert_eq!(pane.shown_ids(), vec![1, 2, 3]);
}

#[test]
fn an_error_state_rebuilds_even_on_an_identical_reading() {
    let mut pane = WorkspacePane::new();
    pane.update_workspaces(&vec![1, 2], 1);
    let builds = pane.rebuild_count();
    pane.show_error();
    // the next reading equals the stored state, but the placeholder must
    // still give way to real controls
    let a = pane.update_workspaces(&vec![1, 2], 1);
    assert_eq!(a, WorkspaceAction::Rebuild);
    assert_eq!(pane.rebuild_count(), builds + 1);
    assert!(!pane.error_displayed());
    assert_eq!(pane.shown_ids(), vec![1, 2]);
}
