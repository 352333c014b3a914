//! Events delivered to the application and the outward actions it requests.

use vstd::prelude::*;
use crate::config::Config;
use crate::pages::{ContextPage, MenuAction};

verus! {

/// Messages emitted by the application and its widgets.
#[derive(Debug)]
pub enum Message {
    OpenRepositoryUrl,
    OpenAuthorUrl,
    SubscriptionChannel,
    ToggleContextPage(ContextPage),
    TogglePopup,
    UpdateConfig(Config),
    LaunchUrl(String),
    Tick,
    GoToPage3,
    UpdateUsername(String),
    SaveSettings,
}

impl MenuAction {
    /// The message a menu entry emits: it asks for its context page.
    pub fn message(&self) -> (m: Message)
        ensures
            *self == MenuAction::About ==> m == Message::ToggleContextPage(ContextPage::About),
            *self == MenuAction::Settings ==> m == Message::ToggleContextPage(
                ContextPage::Settings,
            ),
    {
        match self {
            MenuAction::About => Message::ToggleContextPage(ContextPage::About),
            MenuAction::Settings => Message::ToggleContextPage(ContextPage::Settings),
        }
    }
}

/// What the event-loop driver must perform after a state step: the state
/// machine itself does no I/O.
#[derive(Debug)]
pub enum Action {
    /// Nothing to perform.
    Idle,
    /// Recompute and apply the window title for the active page.
    SetWindowTitle,
    /// Open the project repository in the system handler.
    OpenRepository,
    /// Open the author's profile in the system handler.
    OpenAuthor,
    /// Open the given URL in the system handler.
    OpenUrl(String),
    /// Write this configuration record to persistent storage.
    SaveConfig(Config),
    /// Note on the diagnostic stream that the background channel spoke.
    ChannelNotice,
}

} // verus!
