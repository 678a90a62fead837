use shortcut_dispatcher::tray::{TrayController, TrayMenuAction, TrayOutcome};
use shortcut_dispatcher::window::{
    CloseResponse, ShowRequest, Visibility, WindowError, WindowLifecycleController, WindowState,
};

fn windows_with_main() -> WindowLifecycleController {
    let mut windows = WindowLifecycleController::new();
    assert!(windows.attach("main"));
    windows
}

#[test]
fn menu_has_show_then_quit() {
    let tray = TrayController::new();
    assert_eq!(tray.menu(), vec![TrayMenuAction::ShowMain, TrayMenuAction::Quit]);
    assert!(tray.menu_on_left_click());
}

#[test]
fn menu_items_have_their_identifiers_and_titles() {
    assert_eq!(TrayMenuAction::ShowMain.id(), "show");
    assert_eq!(TrayMenuAction::ShowMain.title(), "Show Window");
    assert_eq!(TrayMenuAction::Quit.id(), "quit");
    assert_eq!(TrayMenuAction::Quit.title(), "Quit");
}

#[test]
fn identifiers_lead_back_to_their_actions() {
    assert_eq!(TrayMenuAction::from_id("quit"), Some(TrayMenuAction::Quit));
    assert_eq!(TrayMenuAction::from_id("show"), Some(TrayMenuAction::ShowMain));
    assert_eq!(TrayMenuAction::from_id("Quit"), None);
    assert_eq!(TrayMenuAction::from_id("show "), None);
    assert_eq!(TrayMenuAction::from_id(""), None);
    assert_eq!(
        TrayMenuAction::from_id(TrayMenuAction::Quit.id()),
        Some(TrayMenuAction::Quit)
    );
    assert_eq!(
        TrayMenuAction::from_id(TrayMenuAction::ShowMain.id()),
        Some(TrayMenuAction::ShowMain)
    );
}

#[test]
fn selecting_show_brings_main_up() {
    let tray = TrayController::new();
    let mut windows = windows_with_main();
    assert_eq!(windows.on_close_requested("main"), CloseResponse::HideAndKeepAlive);
    assert_eq!(
        tray.on_menu_select("show", &mut windows),
        TrayOutcome::ShowMain(ShowRequest::RevealAndFocus)
    );
    assert_eq!(
        windows.state("main"),
        Some(WindowState { visibility: Visibility::Visible, marker: 0 })
    );
    assert_eq!(
        tray.on_menu_select("show", &mut windows),
        TrayOutcome::ShowMain(ShowRequest::FocusOnly)
    );
}

#[test]
fn selecting_quit_exits_with_zero() {
    let tray = TrayController::new();
    let mut windows = windows_with_main();
    assert_eq!(tray.on_menu_select("quit", &mut windows), TrayOutcome::Exit(0));
    assert!(windows.is_terminated());
    assert_eq!(windows.state("main"), None);
}

#[test]
fn selecting_an_unknown_item_is_ignored() {
    let tray = TrayController::new();
    let mut windows = windows_with_main();
    assert_eq!(windows.on_close_requested("main"), CloseResponse::HideAndKeepAlive);
    assert_eq!(tray.on_menu_select("about", &mut windows), TrayOutcome::Ignored);
    assert_eq!(
        windows.state("main"),
        Some(WindowState { visibility: Visibility::Hidden, marker: 0 })
    );
    assert!(!windows.is_terminated());
}

#[test]
fn tray_click_brings_main_up() {
    let tray = TrayController::new();
    let mut windows = windows_with_main();
    assert_eq!(windows.on_close_requested("main"), CloseResponse::HideAndKeepAlive);
    assert_eq!(tray.on_tray_click(&mut windows), TrayOutcome::ShowMain(ShowRequest::RevealAndFocus));
    assert_eq!(tray.on_tray_click(&mut windows), TrayOutcome::ShowMain(ShowRequest::FocusOnly));
}

#[test]
fn a_missing_main_window_is_reported() {
    let tray = TrayController::new();
    let mut windows = WindowLifecycleController::new();
    assert!(windows.attach("widget"));
    assert_eq!(
        tray.on_menu_select("show", &mut windows),
        TrayOutcome::Failed(WindowError::WindowNotFound)
    );
    assert_eq!(tray.on_tray_click(&mut windows), TrayOutcome::Failed(WindowError::WindowNotFound));
    assert_eq!(
        windows.state("widget"),
        Some(WindowState { visibility: Visibility::Visible, marker: 0 })
    );
}

#[test]
fn the_tray_is_silent_after_quit() {
    let tray = TrayController::new();
    let mut windows = windows_with_main();
    assert_eq!(tray.perform(Some(TrayMenuAction::Quit), &mut windows), TrayOutcome::Exit(0));
    assert_eq!(tray.on_menu_select("quit", &mut windows), TrayOutcome::Ignored);
    assert_eq!(tray.on_menu_select("show", &mut windows), TrayOutcome::Ignored);
    assert_eq!(tray.on_tray_click(&mut windows), TrayOutcome::Ignored);
    assert_eq!(tray.perform(None, &mut windows), TrayOutcome::Ignored);
    assert!(windows.is_terminated());
}
