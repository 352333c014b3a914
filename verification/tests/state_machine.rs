use libby::config::Config;
use libby::messages::{Action, Message};
use libby::model::AppModel;
use libby::pages::{ContextPage, MenuAction, Page};

fn fresh() -> AppModel {
    AppModel::init(None, 0)
}

#[test]
fn init_defaults() {
    let m = fresh();
    assert_eq!(m.active_page, Page::Page1);
    assert_eq!(m.context_page, ContextPage::About);
    assert!(!m.show_context);
    assert!(!m.show_popup);
    assert!(m.config.username.is_empty());
}

#[test]
fn init_keeps_loaded_config() {
    let m = AppModel::init(Some(Config { username: String::from("mara") }), 7);
    assert_eq!(m.config.username, "mara");
    assert_eq!(m.animation_millis, 7);
}

#[test]
fn selecting_each_page_activates_exactly_it() {
    let mut m = fresh();
    for page in [Page::Page1, Page::Page2, Page::Page3] {
        let a = m.on_nav_select(page);
        assert_eq!(m.active_page, page);
        assert!(matches!(a, Action::SetWindowTitle));
    }
}

#[test]
fn selecting_a_page_touches_nothing_else() {
    let mut m = fresh();
    m.show_popup = true;
    m.show_context = true;
    m.context_page = ContextPage::Settings;
    m.on_nav_select(Page::Page2);
    assert!(m.show_popup);
    assert!(m.show_context);
    assert_eq!(m.context_page, ContextPage::Settings);
}

#[test]
fn toggling_popup_twice_restores_it() {
    let mut m = fresh();
    let before = m.show_popup;
    m.update(Message::TogglePopup);
    assert_eq!(m.show_popup, !before);
    m.update(Message::TogglePopup);
    assert_eq!(m.show_popup, before);
}

#[test]
fn selecting_open_context_page_again_closes_drawer() {
    let mut m = fresh();
    m.context_page = ContextPage::About;
    m.show_context = true;
    m.update(Message::ToggleContextPage(ContextPage::About));
    assert!(!m.show_context);
    assert_eq!(m.context_page, ContextPage::About);
}

#[test]
fn selecting_other_context_page_opens_drawer_on_it() {
    let mut m = fresh();
    m.context_page = ContextPage::About;
    m.show_context = false;
    m.update(Message::ToggleContextPage(ContextPage::Settings));
    assert!(m.show_context);
    assert_eq!(m.context_page, ContextPage::Settings);
}

#[test]
fn username_round_trips_through_save_and_reload() {
    let mut m = fresh();
    m.update(Message::UpdateUsername(String::from("nandi")));
    let a = m.update(Message::SaveSettings);
    let saved = match a {
        Action::SaveConfig(c) => c,
        _ => panic!("saving settings must hand the driver a config record"),
    };
    assert_eq!(saved.username, "nandi");

    let mut other = fresh();
    other.update(Message::UpdateConfig(saved));
    assert_eq!(other.config.username, "nandi");
}

#[test]
fn url_messages_become_open_actions() {
    let mut m = fresh();
    assert!(matches!(m.update(Message::OpenRepositoryUrl), Action::OpenRepository));
    assert!(matches!(m.update(Message::OpenAuthorUrl), Action::OpenAuthor));
    let a = m.update(Message::LaunchUrl(String::from("https://example.org/x")));
    match a {
        Action::OpenUrl(u) => assert_eq!(u, "https://example.org/x"),
        _ => panic!("launching a url must ask the driver to open it"),
    }
}

#[test]
fn quiet_messages_do_nothing() {
    let mut m = fresh();
    assert!(matches!(m.update(Message::Tick), Action::Idle));
    assert!(matches!(m.update(Message::SubscriptionChannel), Action::ChannelNotice));
    assert_eq!(m.active_page, Page::Page1);
    assert!(!m.show_popup);
}

#[test]
fn go_to_page3_activates_it_and_refreshes_title() {
    let mut m = fresh();
    let a = m.update(Message::GoToPage3);
    assert_eq!(m.active_page, Page::Page3);
    assert!(matches!(a, Action::SetWindowTitle));
}

#[test]
fn dialog_shows_only_on_first_page_with_popup() {
    let mut m = fresh();
    assert!(!m.dialog_visible());
    m.update(Message::TogglePopup);
    assert!(m.dialog_visible());
    m.on_nav_select(Page::Page2);
    assert!(!m.dialog_visible());
}

#[test]
fn context_drawer_reports_open_page() {
    let mut m = fresh();
    assert_eq!(m.context_drawer(), None);
    m.update(Message::ToggleContextPage(ContextPage::Settings));
    assert_eq!(m.context_drawer(), Some(ContextPage::Settings));
}

#[test]
fn menu_actions_toggle_their_context_pages() {
    assert!(matches!(
        MenuAction::About.message(),
        Message::ToggleContextPage(ContextPage::About)
    ));
    assert!(matches!(
        MenuAction::Settings.message(),
        Message::ToggleContextPage(ContextPage::Settings)
    ));
}

#[test]
fn default_context_page_is_about() {
    assert_eq!(ContextPage::default(), ContextPage::About);
}
