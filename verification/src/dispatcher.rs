//! The user-interface side of the configuration channel.
//!
//! The interface keeps its own copy of the configuration.  Every command of
//! the user changes that copy and yields the record to send to the runner;
//! a pending action travels with the record that is sent and then leaves the
//! copy, which is the one that is stored between sessions.

use crate::config::{ConfigModel, Rotation, RunnerAction, RunnerConfig, RunnerStatus};
use crate::input::Input;
use vstd::prelude::*;

verus! {

/// The status that the pause switch stands for.
pub open spec fn status_for(pause: bool) -> RunnerStatus {
    if pause {
        RunnerStatus::Paused
    } else {
        RunnerStatus::Running
    }
}

/// The state of the user-interface side.
pub struct App {
    config: RunnerConfig,
}

impl View for App {
    type V = ConfigModel;

    closed spec fn view(&self) -> ConfigModel {
        self.config@
    }
}

impl App {
    /// The interface state for `config`, once the runner has reported the
    /// screen rotation of what it loaded.
    pub fn new(config: RunnerConfig, rotation: Rotation) -> (app: App)
        ensures
            app@ == (ConfigModel { rotation: rotation, ..config@ }),
    {
        let mut config = config;
        config.set_rotation(rotation);
        App { config }
    }

    /// The configuration as the interface holds it.
    pub fn config(&self) -> (config: &RunnerConfig)
        ensures
            config@ == self@,
    {
        &self.config
    }

    /// The button that the key named `key` stands for, whatever the case of
    /// the name; a key that is not bound changes no input.
    pub fn key_changed(&self, key: &str) -> (button: Option<Input>)
        ensures
            button == self@.button_for_key(key@),
    {
        self.config.button_for_key(key)
    }

    /// Replaces the configuration whole.
    pub fn set_new_config(&mut self, config: RunnerConfig) -> (sent: RunnerConfig)
        ensures
            sent@ == config@,
            final(self)@ == config@.take_action().0,
    {
        self.config = config;
        self.config.publish()
    }

    pub fn mute(&mut self, mute: bool) -> (sent: RunnerConfig)
        ensures
            sent@ == (ConfigModel { mute: mute, ..old(self)@ }),
            final(self)@ == sent@.take_action().0,
    {
        self.config.set_mute(mute);
        self.config.publish()
    }

    pub fn pause(&mut self, pause: bool) -> (sent: RunnerConfig)
        ensures
            sent@ == (ConfigModel { status: status_for(pause), ..old(self)@ }),
            final(self)@ == sent@.take_action().0,
    {
        self.config.set_status(
            if pause {
                RunnerStatus::Paused
            } else {
                RunnerStatus::Running
            },
        );
        self.config.publish()
    }

    /// Asks the runner to load the configured cartridge again.
    pub fn reload_cart(&mut self) -> (sent: RunnerConfig)
        ensures
            sent@ == old(self)@.set_action(RunnerAction::LoadCart),
            final(self)@ == sent@.take_action().0,
    {
        self.config.set_action(RunnerAction::LoadCart);
        self.config.publish()
    }

    /// Makes `file` the cartridge and asks the runner to load it.
    pub fn load_cart(&mut self, file: String) -> (sent: RunnerConfig)
        ensures
            sent@ == (ConfigModel { cartridge: Some(file), ..old(self)@ }).set_action(
                RunnerAction::LoadCart,
            ),
            final(self)@ == sent@.take_action().0,
    {
        self.config.set_cartridge(file);
        self.config.set_action(RunnerAction::LoadCart);
        self.config.publish()
    }

    /// Makes `file` the system ROM and asks the runner to load it.
    pub fn load_rom(&mut self, file: String) -> (sent: RunnerConfig)
        ensures
            sent@ == (ConfigModel { rom: Some(file), ..old(self)@ }).set_action(
                RunnerAction::LoadROM,
            ),
            final(self)@ == sent@.take_action().0,
    {
        self.config.set_rom(file);
        self.config.set_action(RunnerAction::LoadROM);
        self.config.publish()
    }

    /// Asks the runner to reset the core.
    pub fn reset(&mut self) -> (sent: RunnerConfig)
        ensures
            sent@ == old(self)@.set_action(RunnerAction::Reset),
            final(self)@ == sent@.take_action().0,
    {
        self.config.set_action(RunnerAction::Reset);
        self.config.publish()
    }

    /// Asks the runner to load the snapshot stored in `file`.
    pub fn load_state(&mut self, file: String) -> (sent: RunnerConfig)
        ensures
            sent@ == old(self)@.set_action(RunnerAction::LoadState(file)),
            final(self)@ == sent@.take_action().0,
    {
        self.config.set_action(RunnerAction::LoadState(file));
        self.config.publish()
    }

    /// Asks the runner to store a snapshot in `file`.
    pub fn save_state(&mut self, file: String) -> (sent: RunnerConfig)
        ensures
            sent@ == old(self)@.set_action(RunnerAction::SaveState(file)),
            final(self)@ == sent@.take_action().0,
    {
        self.config.set_action(RunnerAction::SaveState(file));
        self.config.publish()
    }
}

/// The copy that the interface keeps never holds an action once a command
/// has been sent: an action is sent once.
pub proof fn lemma_sent_action_leaves(config: ConfigModel, action: RunnerAction)
    ensures
        config.set_action(action).take_action().0.action is None,
        config.set_action(action).take_action().0 == config.take_action().0,
{
}

} // verus!
