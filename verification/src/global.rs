use std::sync::RwLock;

use smol::channel::Sender;
use vstd::prelude::*;

use crate::sealed::Sealed;
use crate::widget::LogicalSize;
use crate::workspace::Workspace;

verus! {

#[verifier::external_type_specification]
#[verifier::external_body]
#[verifier::reject_recursive_types(T)]
pub struct ExRwLock<T: ?Sized>(RwLock<T>);

#[verifier::external_type_specification]
#[verifier::external_body]
#[verifier::reject_recursive_types(T)]
pub struct ExSender<T>(Sender<T>);

/// The types a global can hold: the workspace list, the output size and the
/// sender that wakes the workspace widget. Cloning or dropping any of them
/// never touches a global, so no lock is taken again while one is held.
pub trait SharedValue: Clone + Sealed {}

impl Sealed for Vec<Workspace> {}

impl SharedValue for Vec<Workspace> {}

impl Sealed for LogicalSize {}

impl SharedValue for LogicalSize {}

impl Sealed for Sender<()> {}

impl SharedValue for Sender<()> {}

/// A value shared between threads, possibly absent. Its lock is private:
/// only `read_global` and `write_global` take it, each for the length of one
/// clone or one store, so no guard ever outlives them.
#[verifier::reject_recursive_types(T)]
pub struct Global<T> {
    lock: RwLock<Option<T>>,
}

/// What a failed attempt to take a lock reports: a writer panicked while
/// holding it.
pub struct Poisoned;

/// `std::sync::RwLock::new` with nothing in it yet.
#[verifier::external_body]
fn new_lock<T>() -> (lock: RwLock<Option<T>>) {
    RwLock::new(None)
}

/// `std::sync::RwLock::read`, then a clone of what the lock holds; `Err`
/// when the lock is poisoned. The lock is shared with other threads, so
/// nothing is said of the value that comes back. The lock is the private
/// field of a `Global`, whose holders never take it themselves, and cloning
/// a `SharedValue` takes no lock, so the read is never re-entered.
#[verifier::external_body]
fn lock_read_clone<T: SharedValue>(lock: &RwLock<Option<T>>) -> (result: Result<Option<T>, Poisoned>) {
    match lock.read() {
        Ok(guard) => Ok((*guard).clone()),
        Err(_) => Err(Poisoned),
    }
}

/// `std::sync::RwLock::write`, then the new value is stored under the lock;
/// `Err` when the lock is poisoned, in which case the value is dropped.
/// Nothing is said of the lock afterwards: other threads share it. As for
/// the read, the lock is never re-entered: it is private to a `Global`, and
/// dropping the old `SharedValue` takes no lock.
#[verifier::external_body]
fn lock_write<T: SharedValue>(lock: &RwLock<Option<T>>, value: Option<T>) -> (result: Result<(), Poisoned>) {
    match lock.write() {
        Ok(mut guard) => {
            *guard = value;
            Ok(())
        },
        Err(_) => Err(Poisoned),
    }
}

impl<T: SharedValue> Global<T> {
    /// A global that holds nothing yet.
    pub fn new() -> Global<T> {
        Global { lock: new_lock() }
    }
}

/// What reading a global gives for an outcome of the lock: the value it held,
/// or nothing when the lock was poisoned.
pub fn read_outcome<T>(outcome: Result<Option<T>, Poisoned>) -> (result: Option<T>)
    ensures
        result == match outcome {
            Ok(value) => value,
            Err(_) => None,
        },
{
    match outcome {
        Ok(value) => value,
        Err(_) => None,
    }
}

/// Reads a global: a clone of its value, or `None` when its lock is poisoned.
pub fn read_global<T: SharedValue>(variable: &Global<T>) -> Option<T> {
    read_outcome(lock_read_clone(&variable.lock))
}

/// Replaces the value of a global; nothing happens when its lock is poisoned.
pub fn write_global<T: SharedValue>(variable: &Global<T>, value: Option<T>) {
    let _ = lock_write(&variable.lock, value);
}

/// `async_channel::Sender::try_send` of a unit message, whose result is
/// ignored: the message is queued when the channel has room and dropped when
/// it is full or closed. It never blocks.
#[verifier::external_body]
pub(crate) fn send_signal(sender: &Sender<()>) {
    let _ = sender.try_send(());
}

/// Tells the workspace widget, if one is listening, that the list changed.
pub fn notify_workspaces_changed(notify_tx: &Global<Sender<()>>) {
    if let Some(sender) = read_global(notify_tx) {
        send_signal(&sender);
    }
}

} // verus!
