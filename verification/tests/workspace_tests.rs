use gbar::event::{handle_niri_event, needs_workspaces, react, NiriEvent};
use gbar::workspace::{activate_workspace, set_focus, sort_workspaces_by_id, Workspace};
use gbar::global::{read_global, Global};

fn ws(id: u64, idx: u8, focused: bool) -> Workspace {
    Workspace {
        id,
        idx,
        name: None,
        output: Some("eDP-1".to_string()),
        is_urgent: false,
        is_active: focused,
        is_focused: focused,
        active_window_id: None,
    }
}

fn ids(list: &[Workspace]) -> Vec<u64> {
    list.iter().map(|w| w.id).collect()
}

fn focused_ids(list: &[Workspace]) -> Vec<u64> {
    list.iter().filter(|w| w.is_focused).map(|w| w.id).collect()
}

#[test]
fn sort_orders_by_id() {
    let mut list = vec![ws(3, 0, false), ws(1, 1, true), ws(2, 2, false)];
    sort_workspaces_by_id(&mut list);
    assert_eq!(ids(&list), vec![1, 2, 3]);
    assert_eq!(list[0].idx, 1);
}

#[test]
fn sort_is_stable_for_equal_ids() {
    let mut list = vec![ws(2, 0, false), ws(1, 1, false), ws(2, 2, false), ws(1, 3, false)];
    sort_workspaces_by_id(&mut list);
    assert_eq!(ids(&list), vec![1, 1, 2, 2]);
    let idxs: Vec<u8> = list.iter().map(|w| w.idx).collect();
    assert_eq!(idxs, vec![1, 3, 0, 2]);
}

#[test]
fn sort_of_empty_and_sorted_lists() {
    let mut empty: Vec<Workspace> = Vec::new();
    sort_workspaces_by_id(&mut empty);
    assert!(empty.is_empty());
    let mut sorted = vec![ws(1, 0, false), ws(5, 1, true), ws(9, 2, false)];
    let before = sorted.clone();
    sort_workspaces_by_id(&mut sorted);
    assert_eq!(sorted, before);
}

#[test]
fn set_focus_marks_only_matching_ids() {
    let mut list = vec![ws(1, 0, true), ws(2, 1, false), ws(3, 2, false)];
    set_focus(&mut list, 3);
    assert_eq!(focused_ids(&list), vec![3]);
    assert_eq!(list[0].is_active, true);
    set_focus(&mut list, 7);
    assert!(focused_ids(&list).is_empty());
}

#[test]
fn activation_sorts_and_focuses() {
    let list = vec![ws(4, 0, true), ws(2, 1, false), ws(3, 2, false)];
    let result = activate_workspace(list, 3);
    assert_eq!(ids(&result), vec![2, 3, 4]);
    assert_eq!(focused_ids(&result), vec![3]);
}

#[test]
fn activation_twice_is_activation_once() {
    let list = vec![ws(5, 0, false), ws(1, 1, true), ws(3, 2, false)];
    let once = activate_workspace(list, 5);
    let twice = activate_workspace(once.clone(), 5);
    assert_eq!(once, twice);
}

#[test]
fn react_to_new_configuration() {
    let list = vec![ws(2, 0, false), ws(1, 1, true)];
    let reaction = react(NiriEvent::WorkspacesChanged { workspaces: list.clone() }, None);
    assert_eq!(reaction.store, Some(list));
    assert!(reaction.notify);
}

#[test]
fn react_to_focusing_activation() {
    let current = vec![ws(2, 0, true), ws(1, 1, false)];
    let event = NiriEvent::WorkspaceActivated { id: 1, focused: true };
    assert!(needs_workspaces(&event));
    let reaction = react(event, Some(current));
    let stored = reaction.store.unwrap();
    assert_eq!(ids(&stored), vec![1, 2]);
    assert_eq!(focused_ids(&stored), vec![1]);
    assert!(reaction.notify);
}

#[test]
fn react_to_activation_without_list() {
    let reaction = react(NiriEvent::WorkspaceActivated { id: 1, focused: true }, None);
    assert!(reaction.store.is_none());
    assert!(reaction.notify);
}

#[test]
fn react_ignores_unfocused_activation_and_other_events() {
    let event = NiriEvent::WorkspaceActivated { id: 1, focused: false };
    assert!(!needs_workspaces(&event));
    let reaction = react(event, Some(vec![ws(1, 0, false)]));
    assert!(reaction.store.is_none());
    assert!(!reaction.notify);
    let reaction = react(NiriEvent::Other, Some(vec![ws(1, 0, false)]));
    assert!(reaction.store.is_none());
    assert!(!reaction.notify);
    assert!(!needs_workspaces(&NiriEvent::Other));
}

#[test]
fn handle_event_updates_shared_list_and_notifies() {
    let workspaces: Global<Vec<Workspace>> = Global::new();
    let (tx, rx) = smol::channel::unbounded::<()>();
    let notify: Global<smol::channel::Sender<()>> = Global::new();
    gbar::global::write_global(&notify, Some(tx));

    let applied = handle_niri_event(
        NiriEvent::WorkspacesChanged { workspaces: vec![ws(3, 0, true), ws(1, 1, false)] },
        &workspaces,
        &notify,
    );
    assert_eq!(ids(applied.store.as_ref().unwrap()), vec![3, 1]);
    assert!(applied.notify);
    assert_eq!(ids(&read_global(&workspaces).unwrap()), vec![3, 1]);
    assert!(rx.try_recv().is_ok());

    let applied = handle_niri_event(NiriEvent::WorkspaceActivated { id: 1, focused: true }, &workspaces, &notify);
    let stored = read_global(&workspaces).unwrap();
    assert_eq!(applied.store, Some(stored.clone()));
    assert_eq!(ids(&stored), vec![1, 3]);
    assert_eq!(focused_ids(&stored), vec![1]);
    assert!(rx.try_recv().is_ok());

    let applied = handle_niri_event(NiriEvent::WorkspaceActivated { id: 3, focused: false }, &workspaces, &notify);
    assert!(applied.store.is_none() && !applied.notify);
    let applied = handle_niri_event(NiriEvent::Other, &workspaces, &notify);
    assert!(applied.store.is_none() && !applied.notify);
    assert!(rx.try_recv().is_err());
    assert_eq!(focused_ids(&read_global(&workspaces).unwrap()), vec![1]);
}

#[test]
fn handle_activation_before_any_list() {
    let workspaces: Global<Vec<Workspace>> = Global::new();
    let (tx, rx) = smol::channel::unbounded::<()>();
    let notify = Global::new();
    gbar::global::write_global(&notify, Some(tx));
    let applied = handle_niri_event(NiriEvent::WorkspaceActivated { id: 2, focused: true }, &workspaces, &notify);
    assert!(applied.store.is_none() && applied.notify);
    assert!(read_global(&workspaces).is_none());
    assert!(rx.try_recv().is_ok());
}

#[test]
fn duplicate_copies_every_field() {
    let mut w = ws(4, 2, true);
    w.name = Some("web".to_string());
    w.active_window_id = Some(17);
    assert_eq!(w.duplicate(), w);
    let list = vec![w.clone(), ws(1, 0, false)];
    assert_eq!(gbar::workspace::duplicate_workspaces(&list), list);
}
