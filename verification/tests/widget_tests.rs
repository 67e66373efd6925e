use gbar::component::{loop_action, Bat, Clock, Cpu, LoopAction, LoopEvent, Workspaces, BAT_REFRESH_SECS, CLOCK_REFRESH_SECS};
use gbar::text::{decimal_string, two_digit_string};
use gbar::widget::{
    battery_status, clock_labels, first_output_size, next_icon_index, workspace_labels, BatteryColor,
    BatteryIcon, LogicalSize, LogoChoice,
};
use gbar::workspace::Workspace;
use gbar::global::{read_global, Global};

fn ws(id: u64, focused: bool) -> Workspace {
    Workspace {
        id,
        idx: 0,
        name: Some(format!("w{}", id)),
        output: None,
        is_urgent: false,
        is_active: false,
        is_focused: focused,
        active_window_id: Some(id * 10),
    }
}

#[test]
fn battery_ranges() {
    assert_eq!(battery_status(None), (BatteryIcon::Warning, BatteryColor::Red));
    assert_eq!(battery_status(Some(0)), (BatteryIcon::Warning, BatteryColor::RedLight));
    assert_eq!(battery_status(Some(10)), (BatteryIcon::Warning, BatteryColor::RedLight));
    assert_eq!(battery_status(Some(11)), (BatteryIcon::Low, BatteryColor::Red));
    assert_eq!(battery_status(Some(33)), (BatteryIcon::Low, BatteryColor::Red));
    assert_eq!(battery_status(Some(34)), (BatteryIcon::Medium, BatteryColor::Green));
    assert_eq!(battery_status(Some(70)), (BatteryIcon::Medium, BatteryColor::Green));
    assert_eq!(battery_status(Some(71)), (BatteryIcon::Full, BatteryColor::GreenLight));
    assert_eq!(battery_status(Some(100)), (BatteryIcon::Full, BatteryColor::GreenLight));
    assert_eq!(battery_status(Some(255)), (BatteryIcon::Full, BatteryColor::GreenLight));
}

#[test]
fn battery_icon_never_empties_as_charge_grows() {
    fn rank(icon: BatteryIcon) -> u8 {
        match icon {
            BatteryIcon::Warning => 0,
            BatteryIcon::Low => 1,
            BatteryIcon::Medium => 2,
            BatteryIcon::Full => 3,
        }
    }
    for p in 0u8..255 {
        assert!(rank(battery_status(Some(p)).0) <= rank(battery_status(Some(p + 1)).0));
    }
}

#[test]
fn clock_labels_are_zero_padded() {
    assert_eq!(clock_labels(9, 5), ("09".to_string(), "05".to_string()));
    assert_eq!(clock_labels(0, 0), ("00".to_string(), "00".to_string()));
    assert_eq!(clock_labels(23, 59), ("23".to_string(), "59".to_string()));
    assert_eq!(two_digit_string(42), "42");
}

#[test]
fn decimal_strings() {
    assert_eq!(decimal_string(0), "0");
    assert_eq!(decimal_string(7), "7");
    assert_eq!(decimal_string(10), "10");
    assert_eq!(decimal_string(1234567), "1234567");
    assert_eq!(decimal_string(u64::MAX), u64::MAX.to_string());
}

#[test]
fn labels_follow_sorted_ids() {
    let labels = workspace_labels(Some(vec![ws(12, false), ws(3, true), ws(7, false)]));
    let texts: Vec<&str> = labels.iter().map(|l| l.text.as_str()).collect();
    assert_eq!(texts, vec!["3", "7", "12"]);
    let ids: Vec<u64> = labels.iter().map(|l| l.id).collect();
    assert_eq!(ids, vec![3, 7, 12]);
    let focused: Vec<bool> = labels.iter().map(|l| l.focused).collect();
    assert_eq!(focused, vec![true, false, false]);
}

#[test]
fn labels_without_list_are_empty() {
    assert!(workspace_labels(None).is_empty());
    assert!(workspace_labels(Some(Vec::new())).is_empty());
}

#[test]
fn icon_index_alternates() {
    assert_eq!(next_icon_index(1), 0);
    assert_eq!(next_icon_index(0), 1);
    assert_eq!(next_icon_index(next_icon_index(1)), 1);
}

#[test]
fn first_output_decides_the_size() {
    assert_eq!(first_output_size(&Vec::new()), None);
    let size = LogicalSize { width: 1920, height: 1080 };
    assert_eq!(first_output_size(&vec![Some(size), None]), Some(size));
    assert_eq!(first_output_size(&vec![None, Some(size)]), None);
}

#[test]
fn loop_actions() {
    assert!(matches!(loop_action(LoopEvent::StopSignal), LoopAction::Stop));
    assert!(matches!(loop_action(LoopEvent::TimerElapsed), LoopAction::Redraw));
    assert!(matches!(loop_action(LoopEvent::Notified), LoopAction::Redraw));
    assert!(matches!(loop_action(LoopEvent::NotifyChannelClosed), LoopAction::Stop));
    assert!(matches!(loop_action(LoopEvent::ViewReleased), LoopAction::Stop));
}

#[test]
fn refresh_periods() {
    assert_eq!(CLOCK_REFRESH_SECS, 20);
    assert_eq!(BAT_REFRESH_SECS, 120);
}

#[test]
fn widgets_stop_their_tasks() {
    let (tx, rx) = smol::channel::unbounded::<()>();
    let bat = Bat::new(tx);
    bat.stop();
    assert!(rx.try_recv().is_ok());

    let (tx, rx) = smol::channel::unbounded::<()>();
    let clock = Clock::new(tx);
    clock.stop();
    assert!(rx.try_recv().is_ok());

    let _cpu = Cpu::new();
}

#[test]
fn workspaces_widget_publishes_and_withdraws_its_sender() {
    let slot: Global<smol::channel::Sender<()>> = Global::new();
    let (stop_tx, stop_rx) = smol::channel::unbounded::<()>();
    let (notify_tx, notify_rx) = smol::channel::unbounded::<()>();
    let widget = Workspaces::new(&slot, stop_tx, notify_tx);
    read_global(&slot).unwrap().try_send(()).unwrap();
    assert!(notify_rx.try_recv().is_ok());
    widget.stop(&slot);
    assert!(read_global(&slot).is_none());
    assert!(stop_rx.try_recv().is_ok());
}

#[test]
fn logo_choice_starts_on_the_second_logo_and_alternates() {
    let mut choice = LogoChoice::new();
    assert_eq!(choice.index(), 1);
    choice.click();
    assert_eq!(choice.index(), 0);
    choice.click();
    assert_eq!(choice.index(), 1);
}
