use smol::channel::Sender;
use vstd::prelude::*;

use crate::global::{send_signal, write_global, Global};

verus! {

/// Seconds between two redraws of the clock.
pub const CLOCK_REFRESH_SECS: u64 = 20;

/// Seconds between two redraws of the battery widget.
pub const BAT_REFRESH_SECS: u64 = 120;

/// What woke a widget's background task.
pub enum LoopEvent {
    /// The widget was dropped and asked its task to stop.
    StopSignal,
    /// The refresh period elapsed.
    TimerElapsed,
    /// The workspace list changed.
    Notified,
    /// Nobody can tell the workspace widget about changes any more.
    NotifyChannelClosed,
    /// Redrawing failed because the widget no longer exists.
    ViewReleased,
}

/// What a widget's background task does next.
pub enum LoopAction {
    /// Leave the loop.
    Stop,
    /// Ask the widget to redraw, then wait again.
    Redraw,
}

/// The decision of a widget's background task: a stop request, a closed
/// notification channel or a widget that is gone end the loop; a tick of the
/// timer or a change notification redraws.
pub fn loop_action(event: LoopEvent) -> (action: LoopAction)
    ensures
        action is Stop <==> (event is StopSignal || event is NotifyChannelClosed
            || event is ViewReleased),
{
    match event {
        LoopEvent::StopSignal => LoopAction::Stop,
        LoopEvent::TimerElapsed => LoopAction::Redraw,
        LoopEvent::Notified => LoopAction::Redraw,
        LoopEvent::NotifyChannelClosed => LoopAction::Stop,
        LoopEvent::ViewReleased => LoopAction::Stop,
    }
}

/// The battery widget. It holds the sender that stops its refresh task.
pub struct Bat {
    pub tx: Sender<()>,
}

impl Bat {
    /// A battery widget whose refresh task listens on `tx`'s channel.
    pub fn new(tx: Sender<()>) -> (bat: Bat)
        ensures
            bat.tx == tx,
    {
        Bat { tx }
    }

    /// Asks the refresh task to stop; done when the widget goes away.
    pub fn stop(&self) {
        send_signal(&self.tx);
    }
}

/// The clock widget. It holds the sender that stops its refresh task.
pub struct Clock {
    pub tx: Sender<()>,
}

impl Clock {
    /// A clock whose refresh task listens on `tx`'s channel.
    pub fn new(tx: Sender<()>) -> (clock: Clock)
        ensures
            clock.tx == tx,
    {
        Clock { tx }
    }

    /// Asks the refresh task to stop; done when the widget goes away.
    pub fn stop(&self) {
        send_signal(&self.tx);
    }
}

/// The CPU widget; it has no state.
pub struct Cpu;

impl Cpu {
    /// The CPU widget.
    pub fn new() -> Cpu {
        Cpu
    }
}

/// The workspace widget. It holds the sender that stops its task.
pub struct Workspaces {
    pub tx: Sender<()>,
}

impl Workspaces {
    /// A workspace widget whose task stops on `stop_tx`'s channel and wakes on
    /// `notify_tx`'s; `notify_tx` is published in `notify_slot` so that event
    /// handling can reach it.
    pub fn new(
        notify_slot: &Global<Sender<()>>,
        stop_tx: Sender<()>,
        notify_tx: Sender<()>,
    ) -> (workspaces: Workspaces)
        ensures
            workspaces.tx == stop_tx,
    {
        write_global(notify_slot, Some(notify_tx));
        Workspaces { tx: stop_tx }
    }

    /// Withdraws the published notification sender and asks the task to
    /// stop; done when the widget goes away.
    pub fn stop(&self, notify_slot: &Global<Sender<()>>) {
        write_global(notify_slot, None);
        send_signal(&self.tx);
    }
}

} // verus!
