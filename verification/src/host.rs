//! What the surrounding program brings along.

use vstd::prelude::*;

verus! {

/// The types of the surrounding program that pass through the backend.  The
/// backend keeps and hands back their values and never looks inside.
pub trait Host: Sized {
    /// A notification.
    type Notification;

    /// The store of the notifications.
    type Manager;

    /// What is called when a notification is pressed.
    type OnPress;

    /// The settings of each urgency: texts, colors and commands.
    type Urgencies;

    /// A connection to the compositor.
    type Connection;

    /// The pointer of a seat.
    type Pointer;

    /// The sending end of a window's event channel.
    type EventSender;

    /// The lock round what a window's event loop starts with.
    type Runtime;

    /// A window of the other backend.
    type X11Window;
}

} // verus!
