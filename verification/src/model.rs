//! The application state machine: a flat state struct stepped by messages.
//!
//! Every event handler is a pure transition: it rewrites the state and names
//! the single outward action the driver must perform. The transition function
//! is stated twice — once as a specification ([`step_model`], [`step_action`])
//! and once executably ([`AppModel::update`]) — and the two are proved equal.

use vstd::prelude::*;
use crate::config::Config;
use crate::messages::{Action, Message};
use crate::pages::{ContextPage, Page};

verus! {

/// The application model stores app-specific state used to describe its
/// interface and drive its logic.
#[derive(Debug)]
pub struct AppModel {
    /// The page the navigation bar currently has active.
    pub active_page: Page,
    /// The page shown in the context drawer when it is open.
    pub context_page: ContextPage,
    /// Whether the context drawer is open.
    pub show_context: bool,
    /// Configuration data that persists between application runs.
    pub config: Config,
    /// The animation clock's origin, in milliseconds of the driver's clock.
    pub animation_millis: u64,
    /// Whether the decorative popup dialog is open.
    pub show_popup: bool,
}

/// The state after one message is handled.
pub open spec fn step_model(s: AppModel, m: Message) -> AppModel {
    match m {
        Message::TogglePopup => AppModel { show_popup: !s.show_popup, ..s },
        Message::ToggleContextPage(p) => if s.context_page == p {
            AppModel { show_context: !s.show_context, ..s }
        } else {
            AppModel { context_page: p, show_context: true, ..s }
        },
        Message::UpdateConfig(c) => AppModel { config: c, ..s },
        Message::GoToPage3 => AppModel { active_page: Page::Page3, ..s },
        Message::UpdateUsername(u) => AppModel { config: Config { username: u }, ..s },
        _ => s,
    }
}

/// The outward action a message asks of the driver.
pub open spec fn step_action(s: AppModel, m: Message) -> Action {
    match m {
        Message::OpenRepositoryUrl => Action::OpenRepository,
        Message::OpenAuthorUrl => Action::OpenAuthor,
        Message::SubscriptionChannel => Action::ChannelNotice,
        Message::LaunchUrl(url) => Action::OpenUrl(url),
        Message::GoToPage3 => Action::SetWindowTitle,
        Message::SaveSettings => Action::SaveConfig(s.config),
        _ => Action::Idle,
    }
}

impl AppModel {
    /// The state at startup: the loaded (or default) configuration, the first
    /// page active, the drawer closed on the about panel, no popup.
    pub fn init(loaded: Option<Config>, animation_millis: u64) -> (r: AppModel)
        ensures
            loaded matches Some(c) ==> r.config == c,
            loaded is None ==> r.config.username@ == Seq::<char>::empty(),
            r.active_page == Page::Page1,
            r.context_page == ContextPage::About,
            !r.show_context,
            !r.show_popup,
            r.animation_millis == animation_millis,
    {
        AppModel {
            active_page: Page::Page1,
            context_page: ContextPage::About,
            show_context: false,
            config: crate::config::load_or_default(loaded),
            animation_millis,
            show_popup: false,
        }
    }

    /// Handles messages emitted by the application and its widgets.
    pub fn update(&mut self, message: Message) -> (a: Action)
        ensures
            *final(self) == step_model(*old(self), message),
            a == step_action(*old(self), message),
    {
        match message {
            Message::OpenRepositoryUrl => Action::OpenRepository,
            Message::OpenAuthorUrl => Action::OpenAuthor,
            Message::SubscriptionChannel => Action::ChannelNotice,
            Message::TogglePopup => {
                self.show_popup = !self.show_popup;
                Action::Idle
            },
            Message::ToggleContextPage(context_page) => {
                if self.context_page == context_page {
                    // Close the context drawer if the toggled context page is the same.
                    self.show_context = !self.show_context;
                } else {
                    // Open the context drawer to display the requested context page.
                    self.context_page = context_page;
                    self.show_context = true;
                }
                Action::Idle
            },
            Message::UpdateConfig(config) => {
                self.config = config;
                Action::Idle
            },
            Message::LaunchUrl(url) => Action::OpenUrl(url),
            Message::Tick => Action::Idle,
            Message::GoToPage3 => {
                self.active_page = Page::Page3;
                Action::SetWindowTitle
            },
            Message::UpdateUsername(username) => {
                self.config.username = username;
                Action::Idle
            },
            Message::SaveSettings => Action::SaveConfig(self.config.clone()),
        }
    }

    /// Called when a nav item is selected: that page becomes active, nothing
    /// else moves, and the driver refreshes the window title.
    pub fn on_nav_select(&mut self, page: Page) -> (a: Action)
        ensures
            *final(self) == (AppModel { active_page: page, ..*old(self) }),
            a == Action::SetWindowTitle,
    {
        self.active_page = page;
        Action::SetWindowTitle
    }

    /// The page the context drawer shows: none while the drawer is closed.
    pub fn context_drawer(&self) -> (r: Option<ContextPage>)
        ensures
            r == if self.show_context {
                Some(self.context_page)
            } else {
                Option::<ContextPage>::None
            },
    {
        if self.show_context {
            Some(self.context_page)
        } else {
            None
        }
    }

    /// Whether the popup dialog is shown: only on the first page, and only
    /// while the popup flag is set.
    pub fn dialog_visible(&self) -> (r: bool)
        ensures
            r == (self.show_popup && self.active_page == Page::Page1),
    {
        self.show_popup && self.active_page == Page::Page1
    }
}

/// Activating a page makes exactly that page the active one — whichever of
/// the three selectors was chosen — and touches nothing else.
pub proof fn lemma_page_selection(s: AppModel, p: Page)
    ensures
        (AppModel { active_page: p, ..s }).active_page == p,
        (AppModel { active_page: p, ..s }).context_page == s.context_page,
        (AppModel { active_page: p, ..s }).show_context == s.show_context,
        (AppModel { active_page: p, ..s }).config == s.config,
        (AppModel { active_page: p, ..s }).show_popup == s.show_popup,
{
}

/// Toggling the popup twice returns the state to exactly what it was.
pub proof fn lemma_toggle_popup_twice(s: AppModel)
    ensures
        step_model(step_model(s, Message::TogglePopup), Message::TogglePopup) == s,
{
}

/// Selecting the context page already shown with the drawer open closes the
/// drawer; selecting a different page opens the drawer on that page.
pub proof fn lemma_context_drawer_toggle(s: AppModel, p: ContextPage)
    ensures
        s.context_page == p && s.show_context ==> !step_model(
            s,
            Message::ToggleContextPage(p),
        ).show_context,
        s.context_page != p ==> step_model(s, Message::ToggleContextPage(p)).show_context
            && step_model(s, Message::ToggleContextPage(p)).context_page == p,
{
}

/// Writing a username through settings and saving hands the driver a record
/// carrying exactly that username; reloading that record into any state
/// yields the same username again.
pub proof fn lemma_settings_round_trip(s: AppModel, t: AppModel, u: String)
    ensures
        step_action(step_model(s, Message::UpdateUsername(u)), Message::SaveSettings)
            == Action::SaveConfig(Config { username: u }),
        step_model(t, Message::UpdateConfig(Config { username: u })).config.username == u,
{
}

} // verus!
