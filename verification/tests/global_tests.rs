use gbar::global::{notify_workspaces_changed, read_global, read_outcome, write_global, Global, Poisoned};
use gbar::widget::LogicalSize;
use gbar::workspace::Workspace;

fn ws(id: u64) -> Workspace {
    Workspace {
        id,
        idx: 1,
        name: None,
        output: None,
        is_urgent: false,
        is_active: false,
        is_focused: false,
        active_window_id: None,
    }
}

#[test]
fn read_after_write_gives_the_value() {
    let slot: Global<LogicalSize> = Global::new();
    assert_eq!(read_global(&slot), None);
    let size = LogicalSize { width: 2560, height: 1440 };
    write_global(&slot, Some(size));
    assert_eq!(read_global(&slot), Some(size));
    write_global(&slot, None);
    assert_eq!(read_global(&slot), None);
}

#[test]
fn read_of_a_list_is_a_copy() {
    let slot: Global<Vec<Workspace>> = Global::new();
    write_global(&slot, Some(vec![ws(1), ws(2)]));
    let mut copy = read_global(&slot).unwrap();
    copy.push(ws(3));
    assert_eq!(read_global(&slot), Some(vec![ws(1), ws(2)]));
}

#[test]
fn read_outcome_of_poisoned_lock_is_none() {
    assert_eq!(read_outcome::<u8>(Err(Poisoned)), None);
    assert_eq!(read_outcome(Ok(Some(4u8))), Some(4));
    assert_eq!(read_outcome::<u8>(Ok(None)), None);
}

#[test]
fn notify_sends_one_signal_when_listened() {
    let (tx, rx) = smol::channel::unbounded::<()>();
    let slot = Global::new();
    write_global(&slot, Some(tx));
    notify_workspaces_changed(&slot);
    assert!(rx.try_recv().is_ok());
    assert!(rx.try_recv().is_err());
}

#[test]
fn notify_without_listener_does_nothing() {
    let slot: Global<smol::channel::Sender<()>> = Global::new();
    notify_workspaces_changed(&slot);
    let (tx, rx) = smol::channel::unbounded::<()>();
    drop(rx);
    let closed = Global::new();
    write_global(&closed, Some(tx));
    notify_workspaces_changed(&closed);
}

#[test]
fn notify_on_a_full_channel_returns() {
    let (tx, rx) = smol::channel::bounded::<()>(1);
    tx.try_send(()).unwrap();
    let slot = Global::new();
    write_global(&slot, Some(tx));
    notify_workspaces_changed(&slot);
    assert!(rx.try_recv().is_ok());
    assert!(rx.try_recv().is_err());
}
