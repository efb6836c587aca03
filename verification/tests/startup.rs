use lynx_runner::config::{Rotation, RunnerConfig, RunnerStatus};
use lynx_runner::input::Input;
use lynx_runner::instance::{process_args, startup_role, StartupRole};

#[test]
fn the_lock_holder_is_primary() {
    assert_eq!(startup_role(true, true), StartupRole::Primary);
    assert_eq!(startup_role(true, false), StartupRole::Primary);
}

#[test]
fn a_contender_in_single_instance_mode_is_secondary() {
    assert_eq!(startup_role(false, true), StartupRole::Secondary);
}

#[test]
fn a_contender_without_single_instance_mode_runs_too() {
    assert_eq!(startup_role(false, false), StartupRole::Additional);
}

#[test]
fn arguments_name_cartridge_and_rom() {
    let mut config: RunnerConfig =
        process_args(Some("game.lnx".to_string()), Some("boot.rom".to_string()));
    assert_eq!(config.cartridge(), &Some("game.lnx".to_string()));
    assert_eq!(config.rom(), &Some("boot.rom".to_string()));
    assert!(!config.mute());
    assert_eq!(config.status(), RunnerStatus::Running);
    assert_eq!(config.rotation(), Rotation::Unrotated);
    assert_eq!(config.take_action(), None);
    assert_eq!(config.button_mapping().button_for("q"), Some(Input::Outside));
}

#[test]
fn arguments_may_name_nothing() {
    let config = process_args(None, None);
    assert_eq!(config.cartridge(), &None);
    assert_eq!(config.rom(), &None);
    let only_rom = process_args(None, Some("boot.rom".to_string()));
    assert_eq!(only_rom.cartridge(), &None);
    assert_eq!(only_rom.rom(), &Some("boot.rom".to_string()));
    let only_cart = process_args(Some("a.o".to_string()), None);
    assert_eq!(only_cart.cartridge(), &Some("a.o".to_string()));
    assert_eq!(only_cart.rom(), &None);
}
