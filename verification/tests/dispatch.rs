use minibin::events::{MenuAction, StartCause, TrayButton, TrayIconEvent, UserEvent};
use minibin::tray::{Application, CLEAR_MENU_ID, EXIT_MENU_ID, OPEN_MENU_ID};

fn running_app() -> Application {
    let mut app = Application::new();
    app.new_events(StartCause::Init);
    app
}

fn tooltip_of(app: &Application) -> String {
    app.tray_icon.as_ref().expect("icon should exist").tooltip.clone()
}

#[test]
fn new_application_has_no_icon() {
    let app = Application::new();
    assert!(app.tray_icon.is_none());
}

#[test]
fn init_builds_tray_icon() {
    let mut app = Application::new();
    app.new_events(StartCause::Init);
    assert!(app.tray_icon.is_some());
    assert_eq!(tooltip_of(&app), "Корзиныч");
}

#[test]
fn later_wakeups_leave_state_alone() {
    let mut app = running_app();
    app.new_events(StartCause::Other);
    app.resumed();
    app.window_event();
    assert_eq!(tooltip_of(&app), "Корзиныч");
}

#[test]
fn menu_has_one_entry_per_action_with_unique_ids() {
    let menu = Application::new_tray_menu();
    assert_eq!(menu.items.len(), 3);
    assert_eq!(menu.items[0].id, OPEN_MENU_ID);
    assert_eq!(menu.items[0].label, "Открыть корзину");
    assert_eq!(menu.items[0].action, MenuAction::OpenContainer);
    assert_eq!(menu.items[1].id, CLEAR_MENU_ID);
    assert_eq!(menu.items[1].label, "Отчистить корзину");
    assert_eq!(menu.items[1].action, MenuAction::ClearContainer);
    assert_eq!(menu.items[2].id, EXIT_MENU_ID);
    assert_eq!(menu.items[2].label, "Выйти");
    assert_eq!(menu.items[2].action, MenuAction::Exit);
    for i in 0..menu.items.len() {
        for j in 0..menu.items.len() {
            if i != j {
                assert_ne!(menu.items[i].id, menu.items[j].id);
            }
        }
    }
    assert!(menu.items.iter().all(|it| it.enabled));
}

#[test]
fn left_click_requests_open_and_mutates_nothing() {
    let mut app = running_app();
    let before = tooltip_of(&app);
    let action = app.user_event(UserEvent::TrayIconEvent(TrayIconEvent::Click {
        button: TrayButton::Left,
    }));
    assert_eq!(action, Some(MenuAction::OpenContainer));
    assert_eq!(tooltip_of(&app), before);
}

#[test]
fn open_menu_entry_requests_open_and_mutates_nothing() {
    let mut app = running_app();
    let before = tooltip_of(&app);
    let action = app.user_event(UserEvent::MenuEvent(OPEN_MENU_ID));
    assert_eq!(action, Some(MenuAction::OpenContainer));
    assert_eq!(tooltip_of(&app), before);
}

#[test]
fn other_clicks_are_ignored() {
    let mut app = running_app();
    let right = app.user_event(UserEvent::TrayIconEvent(TrayIconEvent::Click {
        button: TrayButton::Right,
    }));
    let other = app.user_event(UserEvent::TrayIconEvent(TrayIconEvent::Other));
    assert_eq!(right, None);
    assert_eq!(other, None);
    assert_eq!(tooltip_of(&app), "Корзиныч");
}

#[test]
fn unknown_menu_id_is_ignored() {
    let mut app = running_app();
    let action = app.user_event(UserEvent::MenuEvent(42));
    assert_eq!(action, None);
    assert_eq!(tooltip_of(&app), "Корзиныч");
}

#[test]
fn exit_menu_entry_requests_exit() {
    let mut app = running_app();
    let action = app.user_event(UserEvent::MenuEvent(EXIT_MENU_ID));
    assert_eq!(action, Some(MenuAction::Exit));
}

#[test]
fn clear_menu_entry_requests_clear_then_success_rewrites_tooltip() {
    let mut app = running_app();
    let action = app.user_event(UserEvent::MenuEvent(CLEAR_MENU_ID));
    assert_eq!(action, Some(MenuAction::ClearContainer));
    assert_eq!(tooltip_of(&app), "Корзиныч");
    app.clear_result(true);
    assert_eq!(tooltip_of(&app), "Корзина пуста");
}

#[test]
fn clear_failure_keeps_tooltip() {
    let mut app = running_app();
    app.user_event(UserEvent::UpdateTooltip("Корзина: 1.05 МБ".to_owned()));
    app.clear_result(false);
    assert_eq!(tooltip_of(&app), "Корзина: 1.05 МБ");
}

#[test]
fn tooltip_update_rewrites_tooltip() {
    let mut app = running_app();
    let action = app.user_event(UserEvent::UpdateTooltip("Корзина: 0.10 МБ".to_owned()));
    assert_eq!(action, None);
    assert_eq!(tooltip_of(&app), "Корзина: 0.10 МБ");
}

#[test]
fn tooltip_update_without_icon_is_ignored() {
    let mut app = Application::new();
    let action = app.user_event(UserEvent::UpdateTooltip("Корзина: 0.10 МБ".to_owned()));
    assert_eq!(action, None);
    assert!(app.tray_icon.is_none());
}
