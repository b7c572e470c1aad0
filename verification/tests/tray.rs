use ludusavi::tray::{
    menu_action, menu_command, pointer_command, MenuAction, MouseButton, PointerEvent, TrayCommand,
    TrayMenu, ID_BACKUP, ID_EXIT, ID_RESTORE, ID_SETTINGS,
};

#[test]
fn menu_ids_map_to_commands() {
    assert_eq!(menu_command(ID_BACKUP), Some(TrayCommand::Backup));
    assert_eq!(menu_command(ID_RESTORE), Some(TrayCommand::Restore));
    assert_eq!(menu_command(ID_SETTINGS), Some(TrayCommand::Settings));
    assert_eq!(menu_command(ID_EXIT), Some(TrayCommand::Exit));
    assert_eq!(menu_command("backup"), Some(TrayCommand::Backup));
}

#[test]
fn unknown_menu_ids_ask_for_nothing() {
    assert_eq!(menu_command(""), None);
    assert_eq!(menu_command("Backup"), None);
    assert_eq!(menu_command("backup "), None);
    assert_eq!(menu_command("show"), None);
}

#[test]
fn exit_stops_the_tray() {
    assert_eq!(menu_action(ID_EXIT), MenuAction { send: Some(TrayCommand::Exit), stop: true });
    assert_eq!(menu_action(ID_BACKUP), MenuAction { send: Some(TrayCommand::Backup), stop: false });
    assert_eq!(menu_action("other"), MenuAction { send: None, stop: false });
}

#[test]
fn nothing_is_sent_after_exit() {
    let events = [ID_RESTORE, "unknown", ID_SETTINGS, ID_EXIT, ID_BACKUP, ID_EXIT];
    let mut sent = Vec::new();
    for id in events {
        let action = menu_action(id);
        if let Some(command) = action.send {
            sent.push(command);
        }
        if action.stop {
            break;
        }
    }
    assert_eq!(sent, vec![TrayCommand::Restore, TrayCommand::Settings, TrayCommand::Exit]);
}

#[test]
fn left_click_shows_window() {
    assert_eq!(
        pointer_command(&PointerEvent::Click { button: MouseButton::Left }),
        Some(TrayCommand::ShowWindow)
    );
}

#[test]
fn other_pointer_events_ask_for_nothing() {
    assert_eq!(pointer_command(&PointerEvent::Click { button: MouseButton::Right }), None);
    assert_eq!(pointer_command(&PointerEvent::Click { button: MouseButton::Middle }), None);
    assert_eq!(pointer_command(&PointerEvent::Other), None);
}

#[test]
fn tray_menu_stops_after_exit() {
    let mut menu = TrayMenu::new();
    assert!(!menu.is_stopped());
    assert_eq!(menu.handle(ID_BACKUP), Some(TrayCommand::Backup));
    assert_eq!(menu.handle("unknown"), None);
    assert!(!menu.is_stopped());
    assert_eq!(menu.handle(ID_EXIT), Some(TrayCommand::Exit));
    assert!(menu.is_stopped());
    assert_eq!(menu.handle(ID_RESTORE), None);
    assert_eq!(menu.handle(ID_EXIT), None);
    assert!(menu.is_stopped());
}
