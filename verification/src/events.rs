//! The event vocabulary of the tray applications: the user-triggered intents,
//! the tray and menu input events, and the cross-thread events the UI event
//! loop receives from the poller.

use vstd::prelude::*;

verus! {

/// The closed set of user-triggered intents a menu selection can stand for.
/// Each menu id maps to exactly one of these for the process lifetime.
#[derive(Clone, Copy, Debug, PartialEq, Eq, Structural)]
pub enum MenuAction {
    /// Open the recycle-bin folder.
    OpenContainer,
    /// Empty the recycle bin.
    ClearContainer,
    /// Terminate the process.
    Exit,
}

/// Mouse buttons, as far as tray dispatch distinguishes them.
#[derive(Clone, Copy, Debug, PartialEq, Eq, Structural)]
pub enum TrayButton {
    Left,
    Right,
    Middle,
}

/// Tray-icon input events. Only a left click is acted on; everything else
/// (hover, move, other buttons) is ignored by the dispatcher.
#[derive(Clone, Copy, Debug, PartialEq, Eq, Structural)]
pub enum TrayIconEvent {
    Click { button: TrayButton },
    Other,
}

/// Why the event loop woke up. Only the first wake-up matters: the tray icon
/// is built then, to avoid the platform race where an icon created before the
/// loop runs never renders.
#[derive(Clone, Copy, Debug, PartialEq, Eq, Structural)]
pub enum StartCause {
    Init,
    Other,
}

/// The events the UI event loop receives across the channel: tray input,
/// menu selections (by their numeric id), and tooltip updates carrying the
/// text the poller produced from its latest sample.
#[derive(Debug)]
pub enum UserEvent {
    TrayIconEvent(TrayIconEvent),
    MenuEvent(u32),
    UpdateTooltip(String),
}

/// Mathematical image of a `UserEvent`: the tooltip text as a sequence of
/// characters, everything else as itself.
pub ghost enum EventView {
    TrayIconEvent(TrayIconEvent),
    MenuEvent(u32),
    UpdateTooltip(Seq<char>),
}

impl View for UserEvent {
    type V = EventView;

    open spec fn view(&self) -> EventView {
        match self {
            UserEvent::TrayIconEvent(e) => EventView::TrayIconEvent(*e),
            UserEvent::MenuEvent(id) => EventView::MenuEvent(*id),
            UserEvent::UpdateTooltip(tip) => EventView::UpdateTooltip(tip@),
        }
    }
}

} // verus!
