use promptgenie::commands::{
    greet, paste_strategy, permission_probe, settings_target, CommandError, PasteStrategy,
    PermissionProbe, Platform, SettingsTarget,
};
use promptgenie::instance::{activation_target, launch_role, LaunchRole, SECONDARY_EXIT_STATUS};
use promptgenie::menu::{build, MenuItemSpec, TrayMenuModel};
use promptgenie::quit::{
    QuitCommand, QuitEvent, QuitSequencer, QuitState, FAILSAFE_DEADLINE_MS, GRACE_WAIT_MS,
};
use promptgenie::router::{on_tray_activation, route, RouteAction, TrayIconActivation};
use promptgenie::text::{str_eq, str_starts_with};
use promptgenie::tray::{TrayError, TrayRegistry, DEFAULT_TRAY_ID};
use promptgenie::window::{VisibilityState, WindowSet, MAIN_WINDOW_LABEL};

fn empty_menu() -> TrayMenuModel {
    build(&Vec::<MenuItemSpec>::new())
}

fn hidden() -> VisibilityState {
    VisibilityState { visible: false, minimized: true, focused: false }
}

#[test]
fn route_fixed_identifiers() {
    assert_eq!(route("quit"), RouteAction::StartQuit);
    assert_eq!(route("show-window"), RouteAction::ShowMainWindow);
    assert_eq!(route("recent-title"), RouteAction::Ignore);
    assert_eq!(route("no-recent"), RouteAction::Ignore);
    assert_eq!(route("no-entries-yet"), RouteAction::Ignore);
}

#[test]
fn route_forwards_dynamic_identifiers() {
    assert_eq!(route("p1"), RouteAction::ForwardToUi);
    assert_eq!(route("prompt-42"), RouteAction::ForwardToUi);
    assert_eq!(route(""), RouteAction::ForwardToUi);
}

#[test]
fn tray_double_click_shows_main_window() {
    assert_eq!(on_tray_activation(TrayIconActivation::DoubleClick), RouteAction::ShowMainWindow);
    assert_eq!(on_tray_activation(TrayIconActivation::Click), RouteAction::Ignore);
    assert_eq!(on_tray_activation(TrayIconActivation::Other), RouteAction::Ignore);
    assert_eq!(on_tray_activation(TrayIconActivation::DoubleClick), route("show-window"));
}

#[test]
fn update_on_missing_icon_fails_and_creates_nothing() {
    let mut registry = TrayRegistry::new();
    let r = registry.update(DEFAULT_TRAY_ID, empty_menu());
    assert_eq!(r, Err(TrayError::IconNotFound));
    assert_eq!(registry.icons.len(), 0);
    assert_eq!(TrayError::IconNotFound.message(), "tray icon not found");
}

#[test]
fn update_replaces_menu_in_place() {
    let mut registry = TrayRegistry::new();
    assert_eq!(registry.create(String::from(DEFAULT_TRAY_ID), empty_menu()), Ok(()));
    assert_eq!(registry.icons.len(), 1);
    let items = vec![MenuItemSpec { id: String::from("p1"), title: String::from("Short") }];
    let r = registry.update(DEFAULT_TRAY_ID, build(&items));
    assert_eq!(r, Ok(()));
    assert_eq!(registry.icons.len(), 1);
    assert_eq!(registry.icons[0].id, DEFAULT_TRAY_ID);
    assert_eq!(registry.icons[0].menu.entries.len(), 6);
}

#[test]
fn duplicate_icon_is_refused() {
    let mut registry = TrayRegistry::new();
    assert_eq!(registry.create(String::from(DEFAULT_TRAY_ID), empty_menu()), Ok(()));
    let r = registry.create(String::from(DEFAULT_TRAY_ID), empty_menu());
    assert_eq!(r, Err(TrayError::IconAlreadyExists));
    assert_eq!(registry.icons.len(), 1);
}

#[test]
fn close_request_on_main_hides_but_keeps_window() {
    let mut windows = WindowSet::new();
    windows.add_window(
        String::from(MAIN_WINDOW_LABEL),
        VisibilityState { visible: true, minimized: false, focused: true },
    );
    windows.add_window(String::from("settings"), hidden());
    let suppress = windows.on_close_requested("main");
    assert!(suppress);
    assert_eq!(windows.windows.len(), 2);
    assert!(!windows.windows[0].state.visible);
    assert_eq!(windows.windows[1].state, hidden());
}

#[test]
fn close_request_on_other_label_is_untouched() {
    let mut windows = WindowSet::new();
    windows.add_window(
        String::from(MAIN_WINDOW_LABEL),
        VisibilityState { visible: true, minimized: false, focused: true },
    );
    windows.add_window(String::from("settings"), hidden());
    let suppress = windows.on_close_requested("settings");
    assert!(!suppress);
    assert_eq!(windows.windows.len(), 2);
    assert!(windows.windows[0].state.visible);
}

#[test]
fn show_converges_from_any_prior_state() {
    let shown = VisibilityState { visible: true, minimized: false, focused: true };
    let mut windows = WindowSet::new();
    windows.add_window(String::from(MAIN_WINDOW_LABEL), hidden());
    assert!(windows.show("main"));
    assert_eq!(windows.windows[0].state, shown);
    // a second activation changes nothing further
    assert!(windows.show("main"));
    assert_eq!(windows.windows[0].state, shown);
    assert_eq!(windows.windows.len(), 1);
}

#[test]
fn quit_with_failed_emission_terminates_at_once() {
    let mut seq = QuitSequencer::new();
    assert_eq!(seq.state, QuitState::Idle);
    let cmd = seq.on_event(QuitEvent::Requested { emit_ok: false }, 1_000);
    assert_eq!(cmd, QuitCommand::Exit { status: 0 });
    assert_eq!(seq.state, QuitState::Terminated);
}

#[test]
fn quit_grace_expiry_terminates() {
    let mut seq = QuitSequencer::new();
    let cmd = seq.on_event(QuitEvent::Requested { emit_ok: true }, 1_000);
    assert_eq!(cmd, QuitCommand::StartTimers);
    assert_eq!(seq.state, QuitState::ExportRequested);
    assert_eq!(seq.deadline_at, 1_000 + FAILSAFE_DEADLINE_MS);
    assert!(GRACE_WAIT_MS < FAILSAFE_DEADLINE_MS);
    let cmd = seq.on_event(QuitEvent::GraceElapsed, 1_000 + GRACE_WAIT_MS);
    assert_eq!(cmd, QuitCommand::Exit { status: 0 });
}

#[test]
fn quit_deadline_overrides_stuck_ui() {
    let mut seq = QuitSequencer::new();
    seq.on_event(QuitEvent::Requested { emit_ok: true }, 0);
    // the UI acknowledges but nothing else arrives until the fail-safe fires
    let cmd = seq.on_event(QuitEvent::AckReceived, 50);
    assert_eq!(cmd, QuitCommand::Stay);
    assert_eq!(seq.state, QuitState::ExportAcknowledged);
    let cmd = seq.on_event(QuitEvent::DeadlineElapsed, FAILSAFE_DEADLINE_MS);
    assert_eq!(cmd, QuitCommand::Exit { status: 0 });
    assert_eq!(seq.state, QuitState::Terminated);
}

#[test]
fn quit_is_irrevocable() {
    let mut seq = QuitSequencer::new();
    seq.on_event(QuitEvent::Requested { emit_ok: true }, 0);
    seq.on_event(QuitEvent::Requested { emit_ok: true }, 10);
    assert_ne!(seq.state, QuitState::Idle);
    seq.on_event(QuitEvent::DeadlineElapsed, FAILSAFE_DEADLINE_MS);
    seq.on_event(QuitEvent::AckReceived, FAILSAFE_DEADLINE_MS + 1);
    assert_eq!(seq.state, QuitState::Terminated);
}

#[test]
fn second_launch_forwards_and_exits_cleanly() {
    // the singleton lock is already held: the new process is secondary
    assert_eq!(launch_role(false), LaunchRole::Secondary);
    assert_eq!(SECONDARY_EXIT_STATUS, 0);
    // the primary's callback shows its main window
    let labels = vec![String::from("settings"), String::from("main")];
    assert_eq!(activation_target(&labels), Some(1));
    let mut windows = WindowSet::new();
    windows.add_window(String::from("settings"), hidden());
    windows.add_window(String::from("main"), hidden());
    assert!(windows.show(labels[1].as_str()));
    let state = windows.windows[1].state;
    assert!(state.visible && state.focused && !state.minimized);
}

#[test]
fn primary_launch_claims_lock() {
    assert_eq!(launch_role(true), LaunchRole::Primary);
}

#[test]
fn activation_falls_back_to_first_window() {
    let labels = vec![String::from("settings"), String::from("about")];
    assert_eq!(activation_target(&labels), Some(0));
    let no_windows: Vec<String> = Vec::new();
    assert_eq!(activation_target(&no_windows), None);
}

#[test]
fn platform_strategies() {
    assert_eq!(paste_strategy(Platform::MacOs), PasteStrategy::ScriptCommandV);
    assert_eq!(paste_strategy(Platform::Windows), PasteStrategy::InjectControlV);
    assert_eq!(paste_strategy(Platform::Linux), PasteStrategy::InjectControlV);
    assert_eq!(permission_probe(Platform::MacOs), PermissionProbe::RunAccessibilityProbe);
    assert_eq!(permission_probe(Platform::Linux), PermissionProbe::AssumeGranted);
    assert_eq!(settings_target(Platform::MacOs), Ok(SettingsTarget::AccessibilityPane));
    assert_eq!(settings_target(Platform::Windows), Ok(SettingsTarget::KeyboardAccessPage));
    let err = settings_target(Platform::Linux);
    assert_eq!(err, Err(CommandError::SettingsNotSupported));
    assert_eq!(
        CommandError::SettingsNotSupported.message(),
        "opening the system settings is not supported on this platform"
    );
}

#[test]
fn greet_formats_greeting() {
    assert_eq!(greet("World"), "Hello, World! You've been greeted from Rust!");
}

#[test]
fn string_helpers_compare_by_characters() {
    assert!(str_eq("日本語", "日本語"));
    assert!(!str_eq("日本語", "日本誤"));
    assert!(!str_eq("main", "Main"));
    assert!(str_starts_with("no-recent", "no-"));
    assert!(!str_starts_with("north", "no-"));
    assert!(!str_starts_with("no", "no-"));
}
