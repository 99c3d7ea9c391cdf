//! Turning raw activity signals into idle-timer resets.
//!
//! A signal only moves the session's idle timestamp and names what is to be
//! announced to observers. It never touches the rotation window.

use vstd::prelude::*;
use crate::store::SessionStore;

verus! {

/// A sign that somebody is at the display.
#[derive(Clone, Debug, PartialEq, Eq)]
pub enum ActivitySignal {
    /// A click or a pointer movement.
    Pointer,
    /// A released key, with its identifier.
    Key(String),
}

/// Something to announce to observers. Announcing is best effort: whether
/// anybody listens never changes what a command returns.
#[derive(Clone, Debug, PartialEq, Eq)]
pub enum Notification {
    /// The idle timer was reset.
    IdleReset,
    /// A key was released; carries its identifier.
    KeyPressed(String),
}

/// An [`ActivitySignal`] as a mathematical value.
pub enum SignalView {
    Pointer,
    Key(Seq<char>),
}

/// A [`Notification`] as a mathematical value.
pub enum NotificationView {
    IdleReset,
    KeyPressed(Seq<char>),
}

impl View for ActivitySignal {
    type V = SignalView;

    open spec fn view(&self) -> SignalView {
        match *self {
            ActivitySignal::Pointer => SignalView::Pointer,
            ActivitySignal::Key(key) => SignalView::Key(key@),
        }
    }
}

impl View for Notification {
    type V = NotificationView;

    open spec fn view(&self) -> NotificationView {
        match *self {
            Notification::IdleReset => NotificationView::IdleReset,
            Notification::KeyPressed(key) => NotificationView::KeyPressed(key@),
        }
    }
}

/// Every notification of `notes` as a mathematical value, in order.
pub open spec fn notification_views(notes: Seq<Notification>) -> Seq<NotificationView> {
    Seq::new(notes.len(), |i: int| notes[i]@)
}

/// What a signal announces: always the idle reset, and after it the key for
/// a key signal.
pub open spec fn notifications_for(signal: SignalView) -> Seq<NotificationView> {
    match signal {
        SignalView::Pointer => seq![NotificationView::IdleReset],
        SignalView::Key(key) => seq![NotificationView::IdleReset, NotificationView::KeyPressed(key)],
    }
}

impl Notification {
    /// The event name under which the notification is announced.
    pub fn event_name(&self) -> (name: &'static str)
        ensures
            name@ == match self@ {
                NotificationView::IdleReset => "reset-timer"@,
                NotificationView::KeyPressed(_) => "keyup"@,
            },
    {
        match self {
            Notification::IdleReset => "reset-timer",
            Notification::KeyPressed(_) => "keyup",
        }
    }
}

/// Records `signal`, stamped `now`, in `store` and names what to announce.
pub fn record_activity(store: &mut SessionStore, signal: ActivitySignal, now: i64) -> (notes: Vec<
    Notification,
>)
    ensures
        final(store)@ == old(store)@.touched(now as int),
        notification_views(notes@) == notifications_for(signal@),
{
    store.touch(now);
    let mut notes: Vec<Notification> = Vec::new();
    notes.push(Notification::IdleReset);
    match signal {
        ActivitySignal::Pointer => {},
        ActivitySignal::Key(key) => {
            notes.push(Notification::KeyPressed(key));
        },
    }
    assert(notification_views(notes@) =~= notifications_for(signal@));
    notes
}

} // verus!
