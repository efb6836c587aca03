use lynx_runner::button_map::ButtonMap;
use lynx_runner::config::{Rotation, RunnerAction, RunnerConfig, RunnerStatus};
use lynx_runner::input::{Input, BUTTON_COUNT};

fn lookup(config: &RunnerConfig, key: &str) -> Option<Input> {
    config.button_mapping().button_for(key)
}

fn key_of(config: &RunnerConfig, button: Input) -> Option<String> {
    config.button_mapping().key_for(button).cloned()
}

#[test]
fn default_config_is_a_fresh_start() {
    let config = RunnerConfig::default();
    assert_eq!(config.cartridge(), &None);
    assert_eq!(config.rom(), &None);
    assert!(!config.mute());
    assert!(!config.comlynx());
    assert_eq!(config.status(), RunnerStatus::Running);
    assert_eq!(config.rotation(), Rotation::Unrotated);
}

#[test]
fn default_config_has_no_pending_action() {
    let mut config = RunnerConfig::default();
    assert_eq!(config.take_action(), None);
}

#[test]
fn default_bindings_cover_every_button() {
    let config = RunnerConfig::default();
    assert_eq!(lookup(&config, "up"), Some(Input::Up));
    assert_eq!(lookup(&config, "down"), Some(Input::Down));
    assert_eq!(lookup(&config, "left"), Some(Input::Left));
    assert_eq!(lookup(&config, "right"), Some(Input::Right));
    assert_eq!(lookup(&config, "q"), Some(Input::Outside));
    assert_eq!(lookup(&config, "w"), Some(Input::Inside));
    assert_eq!(lookup(&config, "1"), Some(Input::Option1));
    assert_eq!(lookup(&config, "2"), Some(Input::Option2));
    assert_eq!(lookup(&config, "p"), Some(Input::Pause));
    assert_eq!(lookup(&config, "x"), None);
    assert_eq!(config.button_mapping().bindings().len(), BUTTON_COUNT);
}

#[test]
fn default_bindings_by_button() {
    let config = RunnerConfig::default();
    assert_eq!(key_of(&config, Input::Up), Some("up".to_string()));
    assert_eq!(key_of(&config, Input::Outside), Some("q".to_string()));
    assert_eq!(key_of(&config, Input::Pause), Some("p".to_string()));
}

#[test]
fn binding_lowers_the_key_name() {
    let mut config = RunnerConfig::default();
    config.set_button_mapping_as_str("Return".to_string(), Input::Pause);
    assert_eq!(lookup(&config, "return"), Some(Input::Pause));
    assert_eq!(lookup(&config, "Return"), None);
    assert_eq!(key_of(&config, Input::Pause), Some("return".to_string()));
}

#[test]
fn binding_lowers_letters_outside_ascii() {
    let mut config = RunnerConfig::default();
    config.set_button_mapping_as_str("Ä".to_string(), Input::Inside);
    assert_eq!(lookup(&config, "ä"), Some(Input::Inside));
}

#[test]
fn binding_drops_the_old_key_of_the_button() {
    let mut config = RunnerConfig::default();
    config.set_button_mapping_as_str("a".to_string(), Input::Outside);
    assert_eq!(lookup(&config, "a"), Some(Input::Outside));
    assert_eq!(lookup(&config, "q"), None);
    assert_eq!(config.button_mapping().bindings().len(), BUTTON_COUNT);
}

#[test]
fn binding_a_taken_key_moves_it() {
    let mut config = RunnerConfig::default();
    config.set_button_mapping_as_str("q".to_string(), Input::Up);
    assert_eq!(lookup(&config, "q"), Some(Input::Up));
    assert_eq!(lookup(&config, "up"), None);
    assert_eq!(key_of(&config, Input::Up), Some("q".to_string()));
    assert_eq!(key_of(&config, Input::Outside), None);
    assert_eq!(config.button_mapping().bindings().len(), BUTTON_COUNT - 1);
}

#[test]
fn binding_the_same_pair_again_changes_nothing() {
    let mut config = RunnerConfig::default();
    config.set_button_mapping_as_str("q".to_string(), Input::Outside);
    assert_eq!(lookup(&config, "q"), Some(Input::Outside));
    assert_eq!(config.button_mapping().bindings().len(), BUTTON_COUNT);
}

#[test]
fn bind_key_takes_the_name_as_it_is() {
    let mut config = RunnerConfig::default();
    config.bind_key("Q".to_string(), Input::Outside);
    assert_eq!(lookup(&config, "Q"), Some(Input::Outside));
    assert_eq!(lookup(&config, "q"), None);
}

#[test]
fn button_for_key_ignores_case() {
    let config = RunnerConfig::default();
    assert_eq!(config.button_for_key("Up"), Some(Input::Up));
    assert_eq!(config.button_for_key("P"), Some(Input::Pause));
    assert_eq!(config.button_for_key("F1"), None);
}

fn assert_one_key_per_button(config: &RunnerConfig) {
    let pairs = config.button_mapping().bindings();
    for i in 0..pairs.len() {
        for j in 0..pairs.len() {
            if i != j {
                assert_ne!(pairs[i].0, pairs[j].0);
                assert_ne!(pairs[i].1, pairs[j].1);
            }
        }
        assert_eq!(lookup(config, &pairs[i].0), Some(pairs[i].1));
    }
}

#[test]
fn bindings_stay_one_to_one_after_each_call() {
    let mut config = RunnerConfig::default();
    let calls = [
        ("a", Input::Up),
        ("A", Input::Down),
        ("q", Input::Pause),
        ("Q", Input::Outside),
        ("w", Input::Inside),
        ("1", Input::Option2),
        ("2", Input::Option1),
        ("space", Input::Up),
        ("SPACE", Input::Up),
        ("p", Input::Left),
    ];
    for (key, button) in calls {
        config.set_button_mapping_as_str(key.to_string(), button);
        assert_one_key_per_button(&config);
        assert_eq!(lookup(&config, &key.to_lowercase()), Some(button));
    }
    assert_eq!(lookup(&config, "a"), Some(Input::Down));
    assert_eq!(lookup(&config, "space"), Some(Input::Up));
    assert_eq!(lookup(&config, "q"), Some(Input::Outside));
    assert_eq!(key_of(&config, Input::Pause), None);
}

#[test]
fn action_is_taken_once() {
    let mut config = RunnerConfig::default();
    config.set_action(RunnerAction::LoadState("slot.sal".to_string()));
    assert_eq!(config.take_action(), Some(RunnerAction::LoadState("slot.sal".to_string())));
    assert_eq!(config.take_action(), None);
}

#[test]
fn second_action_overwrites_the_first() {
    let mut config = RunnerConfig::default();
    config.set_action(RunnerAction::LoadCart);
    config.set_action(RunnerAction::Reset);
    assert_eq!(config.take_action(), Some(RunnerAction::Reset));
    assert_eq!(config.take_action(), None);
}

#[test]
fn setters_change_their_field_only() {
    let mut config = RunnerConfig::default();
    config.set_rom("boot.rom".to_string());
    config.set_cartridge("game.lnx".to_string());
    config.set_mute(true);
    config.set_comlynx(true);
    config.set_status(RunnerStatus::Paused);
    config.set_rotation(Rotation::Left);
    assert_eq!(config.rom(), &Some("boot.rom".to_string()));
    assert_eq!(config.cartridge(), &Some("game.lnx".to_string()));
    assert!(config.mute());
    assert!(config.comlynx());
    assert_eq!(config.status(), RunnerStatus::Paused);
    assert_eq!(config.rotation(), Rotation::Left);
    assert_eq!(lookup(&config, "up"), Some(Input::Up));
    assert_eq!(config.take_action(), None);
    config.set_rotation(Rotation::Right);
    assert_eq!(config.rotation(), Rotation::Right);
    assert_eq!(config.cartridge(), &Some("game.lnx".to_string()));
}

#[test]
fn clone_keeps_every_field() {
    let mut config = RunnerConfig::default();
    config.set_cartridge("game.lnx".to_string());
    config.set_mute(true);
    config.set_button_mapping_as_str("z".to_string(), Input::Inside);
    config.set_action(RunnerAction::SaveState("a.sal".to_string()));
    let mut copy = config.clone();
    assert_eq!(copy.cartridge(), &Some("game.lnx".to_string()));
    assert!(copy.mute());
    assert_eq!(lookup(&copy, "z"), Some(Input::Inside));
    assert_eq!(lookup(&copy, "w"), None);
    assert_eq!(copy.take_action(), Some(RunnerAction::SaveState("a.sal".to_string())));
    assert_eq!(config.take_action(), Some(RunnerAction::SaveState("a.sal".to_string())));
}

#[test]
fn publish_sends_the_action_and_keeps_none() {
    let mut config = RunnerConfig::default();
    config.set_action(RunnerAction::Reset);
    let mut sent = config.publish();
    assert_eq!(sent.take_action(), Some(RunnerAction::Reset));
    assert_eq!(config.take_action(), None);
}

#[test]
fn persisted_config_has_neither_cartridge_nor_action() {
    let mut config = RunnerConfig::from_persisted(
        Some("boot.rom".to_string()),
        vec![("a".to_string(), Input::Up), ("b".to_string(), Input::Down)],
        true,
        false,
        RunnerStatus::Paused,
        Rotation::Right,
    );
    assert_eq!(config.cartridge(), &None);
    assert_eq!(config.take_action(), None);
    assert_eq!(config.rom(), &Some("boot.rom".to_string()));
    assert!(config.mute());
    assert!(!config.comlynx());
    assert_eq!(config.status(), RunnerStatus::Paused);
    assert_eq!(config.rotation(), Rotation::Right);
    assert_eq!(lookup(&config, "a"), Some(Input::Up));
    assert_eq!(lookup(&config, "b"), Some(Input::Down));
    assert_eq!(lookup(&config, "q"), None);
}

#[test]
fn persisted_bindings_are_made_in_order() {
    let table = ButtonMap::from_bindings(vec![
        ("a".to_string(), Input::Up),
        ("a".to_string(), Input::Down),
        ("b".to_string(), Input::Down),
        ("c".to_string(), Input::Left),
    ]);
    assert_eq!(table.button_for("a"), None);
    assert_eq!(table.button_for("b"), Some(Input::Down));
    assert_eq!(table.button_for("c"), Some(Input::Left));
    assert_eq!(
        table.bindings(),
        vec![("b".to_string(), Input::Down), ("c".to_string(), Input::Left)]
    );
}

#[test]
fn empty_table_binds_nothing() {
    let table = ButtonMap::new();
    assert_eq!(table.button_for("up"), None);
    assert_eq!(table.key_for(Input::Up), None);
    assert!(table.bindings().is_empty());
}

#[test]
fn table_clone_is_independent() {
    let mut table = ButtonMap::new();
    table.assign("a".to_string(), Input::Up);
    let copy = table.clone();
    table.assign("b".to_string(), Input::Up);
    assert_eq!(copy.button_for("a"), Some(Input::Up));
    assert_eq!(copy.button_for("b"), None);
    assert_eq!(table.button_for("a"), None);
    assert_eq!(table.button_for("b"), Some(Input::Up));
}

#[test]
fn buttons_are_numbered_in_order() {
    let all = Input::all();
    assert_eq!(
        all,
        vec![
            Input::Up,
            Input::Down,
            Input::Left,
            Input::Right,
            Input::Outside,
            Input::Inside,
            Input::Option1,
            Input::Option2,
            Input::Pause,
        ]
    );
    for (i, button) in all.iter().enumerate() {
        assert_eq!(button.index(), i);
        assert_eq!(Input::from_index(i), Some(*button));
    }
    assert_eq!(Input::from_index(BUTTON_COUNT), None);
    assert_eq!(Input::from_index(usize::MAX), None);
}

#[test]
fn buttons_have_their_names() {
    assert_eq!(Input::Up.name(), "Up");
    assert_eq!(Input::Outside.name(), "Outside");
    assert_eq!(Input::Option1.name(), "Option1");
    assert_eq!(Input::Option2.name(), "Option2");
    assert_eq!(Input::Pause.name(), "Pause");
    assert_eq!(format!("{:?}", Input::Inside), Input::Inside.name());
    assert_eq!(Input::default(), Input::Up);
}
