use lynx_runner::config::{Rotation, RunnerAction, RunnerConfig, RunnerStatus};
use lynx_runner::dispatcher::App;
use lynx_runner::input::Input;

fn app() -> App {
    App::new(RunnerConfig::default(), Rotation::Left)
}

fn pending(app: &App) -> Option<RunnerAction> {
    app.config().clone().take_action()
}

#[test]
fn the_interface_adopts_the_reported_rotation() {
    let app = app();
    assert_eq!(app.config().rotation(), Rotation::Left);
    assert_eq!(app.config().cartridge(), &None);
    assert_eq!(app.config().status(), RunnerStatus::Running);
}

#[test]
fn mute_is_sent_and_kept() {
    let mut app = app();
    let mut sent = app.mute(true);
    assert!(sent.mute());
    assert_eq!(sent.take_action(), None);
    assert!(app.config().mute());
    let sent = app.mute(false);
    assert!(!sent.mute());
    assert!(!app.config().mute());
}

#[test]
fn pause_sets_the_status() {
    let mut app = app();
    let sent = app.pause(true);
    assert_eq!(sent.status(), RunnerStatus::Paused);
    assert_eq!(app.config().status(), RunnerStatus::Paused);
    let sent = app.pause(false);
    assert_eq!(sent.status(), RunnerStatus::Running);
    assert_eq!(app.config().status(), RunnerStatus::Running);
}

#[test]
fn load_cart_sends_path_and_action() {
    let mut app = app();
    let mut sent = app.load_cart("game.lnx".to_string());
    assert_eq!(sent.cartridge(), &Some("game.lnx".to_string()));
    assert_eq!(sent.take_action(), Some(RunnerAction::LoadCart));
    assert_eq!(app.config().cartridge(), &Some("game.lnx".to_string()));
    assert_eq!(pending(&app), None);
}

#[test]
fn reload_cart_keeps_the_path() {
    let mut app = app();
    app.load_cart("game.lnx".to_string());
    let mut sent = app.reload_cart();
    assert_eq!(sent.cartridge(), &Some("game.lnx".to_string()));
    assert_eq!(sent.take_action(), Some(RunnerAction::LoadCart));
    assert_eq!(pending(&app), None);
}

#[test]
fn load_rom_sends_path_and_action() {
    let mut app = app();
    let mut sent = app.load_rom("boot.rom".to_string());
    assert_eq!(sent.rom(), &Some("boot.rom".to_string()));
    assert_eq!(sent.take_action(), Some(RunnerAction::LoadROM));
    assert_eq!(app.config().rom(), &Some("boot.rom".to_string()));
    assert_eq!(pending(&app), None);
}

#[test]
fn reset_and_snapshots_send_their_action() {
    let mut app = app();
    assert_eq!(app.reset().take_action(), Some(RunnerAction::Reset));
    assert_eq!(pending(&app), None);
    assert_eq!(
        app.load_state("a.sal".to_string()).take_action(),
        Some(RunnerAction::LoadState("a.sal".to_string()))
    );
    assert_eq!(pending(&app), None);
    assert_eq!(
        app.save_state("b.sal".to_string()).take_action(),
        Some(RunnerAction::SaveState("b.sal".to_string()))
    );
    assert_eq!(pending(&app), None);
}

#[test]
fn a_new_config_replaces_the_old_one() {
    let mut app = app();
    app.mute(true);
    let mut next = RunnerConfig::default();
    next.set_button_mapping_as_str("a".to_string(), Input::Up);
    next.set_action(RunnerAction::Reset);
    let mut sent = app.set_new_config(next);
    assert_eq!(sent.take_action(), Some(RunnerAction::Reset));
    assert_eq!(sent.button_mapping().button_for("a"), Some(Input::Up));
    assert!(!app.config().mute());
    assert_eq!(app.config().rotation(), Rotation::Unrotated);
    assert_eq!(app.config().button_mapping().button_for("a"), Some(Input::Up));
    assert_eq!(pending(&app), None);
}

#[test]
fn keys_are_looked_up_whatever_their_case() {
    let app = app();
    assert_eq!(app.key_changed("Up"), Some(Input::Up));
    assert_eq!(app.key_changed("q"), Some(Input::Outside));
    assert_eq!(app.key_changed("Q"), Some(Input::Outside));
    assert_eq!(app.key_changed("Escape"), None);
}
