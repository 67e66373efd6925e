use smol::channel::Sender;
use vstd::prelude::*;

use crate::global::{notify_workspaces_changed, read_global, write_global, Global};
use crate::workspace::{
    activate_workspace, activated, duplicate_workspaces, lemma_activation_focus, sort_by_id, sorted_by_id,
    Workspace,
};

verus! {

/// The events of niri's event stream that the bar tells apart.
pub enum NiriEvent {
    /// The whole workspace configuration changed.
    WorkspacesChanged { workspaces: Vec<Workspace> },
    /// A workspace was activated on its output; `focused` tells whether it
    /// also took the focus.
    WorkspaceActivated { id: u64, focused: bool },
    /// Any other event.
    Other,
}

/// What the bar does in answer to an event.
pub struct Reaction {
    /// The new workspace list to store, or `None` to leave it as it is.
    pub store: Option<Vec<Workspace>>,
    /// Whether the workspace widget is told to redraw.
    pub notify: bool,
}

/// The contents of an optional list.
pub open spec fn list_view(list: Option<Vec<Workspace>>) -> Option<Seq<Workspace>> {
    match list {
        Some(l) => Some(l@),
        None => None,
    }
}

/// The answer to `event` when the stored list is `current`: the list to
/// store (`None` to leave the stored one) and whether to tell the widget.
/// - a new configuration replaces the list, and the widget is told;
/// - an activation that takes the focus reorders the stored list by id and
///   moves the focus to the activated workspace (nothing is stored when there
///   is no list yet), and the widget is told;
/// - anything else changes nothing.
pub open spec fn answer(event: NiriEvent, current: Option<Seq<Workspace>>) -> (
    Option<Seq<Workspace>>,
    bool,
) {
    match event {
        NiriEvent::WorkspacesChanged { workspaces } => (Some(workspaces@), true),
        NiriEvent::WorkspaceActivated { id, focused } => if focused {
            match current {
                Some(list) => (Some(activated(list, id)), true),
                None => (None, true),
            }
        } else {
            (None, false)
        },
        NiriEvent::Other => (None, false),
    }
}

/// Whether the answer to `event` depends on the stored workspace list.
pub open spec fn reads_workspaces(event: NiriEvent) -> bool {
    event matches NiriEvent::WorkspaceActivated { focused, .. } && focused
}

/// Whether the answer to `event` depends on the stored workspace list: only
/// a focusing activation does.
pub fn needs_workspaces(event: &NiriEvent) -> (result: bool)
    ensures
        result == reads_workspaces(*event),
{
    match event {
        NiriEvent::WorkspaceActivated { focused, .. } => *focused,
        _ => false,
    }
}

/// The answer to `event` when the stored list is `current`, as `answer`
/// describes it.
pub fn react(event: NiriEvent, current: Option<Vec<Workspace>>) -> (reaction: Reaction)
    ensures
        (list_view(reaction.store), reaction.notify) == answer(event, list_view(current)),
{
    match event {
        NiriEvent::WorkspacesChanged { workspaces } => Reaction { store: Some(workspaces), notify: true },
        NiriEvent::WorkspaceActivated { id, focused } => {
            if focused {
                match current {
                    Some(list) => Reaction { store: Some(activate_workspace(list, id)), notify: true },
                    None => Reaction { store: None, notify: true },
                }
            } else {
                Reaction { store: None, notify: false }
            }
        },
        NiriEvent::Other => Reaction { store: None, notify: false },
    }
}

/// A new configuration replaces the stored list, whatever the stored list
/// is (its answer does not even read it), and wakes the widget.
pub proof fn lemma_new_configuration_replaces(
    workspaces: Vec<Workspace>,
    current: Option<Seq<Workspace>>,
)
    ensures
        !reads_workspaces(NiriEvent::WorkspacesChanged { workspaces }),
        answer(NiriEvent::WorkspacesChanged { workspaces }, current) == (
            Some(workspaces@),
            true,
        ),
{
}

/// A focusing activation wakes the widget; with a stored list it stores the
/// list ordered by id, of the same length, where a workspace is focused
/// exactly when it has the activated id; with no stored list it stores
/// nothing.
pub proof fn lemma_focusing_activation(id: u64, current: Option<Seq<Workspace>>)
    ensures
        reads_workspaces(NiriEvent::WorkspaceActivated { id, focused: true }),
        answer(NiriEvent::WorkspaceActivated { id, focused: true }, current).1,
        current is None ==> answer(NiriEvent::WorkspaceActivated { id, focused: true }, current).0 is None,
        current matches Some(list) ==> answer(
            NiriEvent::WorkspaceActivated { id, focused: true },
            current,
        ).0 matches Some(stored) && {
            &&& stored.len() == list.len()
            &&& sorted_by_id(stored)
            &&& forall|i: int|
                0 <= i < stored.len() ==> (#[trigger] stored[i]).is_focused == (stored[i].id == id)
            &&& forall|i: int| 0 <= i < stored.len() ==> (#[trigger] stored[i]).id == sort_by_id(list)[i].id
        },
{
    if let Some(list) = current {
        lemma_activation_focus(list, id);
    }
}

/// An activation that does not take the focus, and any other event, change
/// nothing and wake nobody, whatever the stored list is.
pub proof fn lemma_other_events_ignored(id: u64, current: Option<Seq<Workspace>>)
    ensures
        !reads_workspaces(NiriEvent::WorkspaceActivated { id, focused: false }),
        answer(NiriEvent::WorkspaceActivated { id, focused: false }, current) == (
            None::<Seq<Workspace>>,
            false,
        ),
        !reads_workspaces(NiriEvent::Other),
        answer(NiriEvent::Other, current) == (None::<Seq<Workspace>>, false),
{
}

/// Applies `event` to the shared workspace list and wakes the workspace
/// widget when the event concerns it, then returns the answer it applied.
/// The stored list is read only for a focusing activation; the answer is
/// `react`'s for the list that was read (for any other event, for no list).
/// A copy of the answer's list, if it has one, is stored, and the widget is
/// told when the answer says so. What the shared list holds afterwards is
/// not stated: other threads share it.
pub fn handle_niri_event(
    event: NiriEvent,
    workspaces: &Global<Vec<Workspace>>,
    notify_tx: &Global<Sender<()>>,
) -> (reaction: Reaction)
    ensures
        exists|read: Option<Seq<Workspace>>|
            (!reads_workspaces(event) ==> read is None) && (list_view(reaction.store), reaction.notify)
                == #[trigger] answer(event, read),
{
    let ghost original = event;
    let current = if needs_workspaces(&event) {
        read_global(workspaces)
    } else {
        None
    };
    let reaction = react(event, current);
    if let Some(list) = &reaction.store {
        write_global(workspaces, Some(duplicate_workspaces(list)));
    }
    if reaction.notify {
        notify_workspaces_changed(notify_tx);
    }
    assert((list_view(reaction.store), reaction.notify) == answer(original, list_view(current)));
    reaction
}

} // verus!
