//! The configuration record that the user interface sends to the runner.
//!
//! A record is exchanged whole.  It carries the paths, the session flags, the
//! button table, and one slot for a one-shot action that is taken at most
//! once.

use crate::button_map::{injective, lemma_rebind_injective, rebind, ButtonMap};
use crate::input::Input;
use vstd::prelude::*;

verus! {

/// Whether the emulation advances.
#[derive(Clone, Copy, Debug, PartialEq, Eq, Structural)]
pub enum RunnerStatus {
    Paused,
    Running,
}

/// How the screen of the loaded cartridge is turned.
#[derive(Clone, Copy, Debug, PartialEq, Eq, Structural)]
pub enum Rotation {
    Unrotated,
    Left,
    Right,
}

/// A command that the runner carries out once.
#[derive(Debug, PartialEq, Eq)]
pub enum RunnerAction {
    LoadCart,
    LoadROM,
    Reset,
    LoadState(String),
    SaveState(String),
}

impl Clone for RunnerAction {
    fn clone(&self) -> (copy: RunnerAction)
        ensures
            copy == *self,
    {
        match self {
            RunnerAction::LoadCart => RunnerAction::LoadCart,
            RunnerAction::LoadROM => RunnerAction::LoadROM,
            RunnerAction::Reset => RunnerAction::Reset,
            RunnerAction::LoadState(path) => RunnerAction::LoadState(path.clone()),
            RunnerAction::SaveState(path) => RunnerAction::SaveState(path.clone()),
        }
    }
}

/// What `str::to_lowercase` returns for a text.
pub uninterp spec fn lowercase(text: Seq<char>) -> Seq<char>;

/// Calls `str::to_lowercase`.  The result is a function of the text alone
/// (the Unicode lowercase mapping, independent of any locale); the contract
/// gives it its name and says nothing more of it.
#[verifier::external_body]
fn to_lowercase(text: &str) -> (lower: String)
    ensures
        lower@ == lowercase(text@),
{
    text.to_lowercase()
}

/// The bindings of a fresh configuration.
pub open spec fn default_bindings() -> Map<Seq<char>, Input> {
    map![
        "up"@ => Input::Up,
        "down"@ => Input::Down,
        "left"@ => Input::Left,
        "right"@ => Input::Right,
        "q"@ => Input::Outside,
        "w"@ => Input::Inside,
        "1"@ => Input::Option1,
        "2"@ => Input::Option2,
        "p"@ => Input::Pause,
    ]
}

/// What a configuration record holds.
pub struct ConfigModel {
    pub cartridge: Option<String>,
    pub rom: Option<String>,
    pub button_mapping: Map<Seq<char>, Input>,
    pub mute: bool,
    pub comlynx: bool,
    pub status: RunnerStatus,
    pub rotation: Rotation,
    pub action: Option<RunnerAction>,
}

impl ConfigModel {
    /// The record of a fresh start.
    pub open spec fn initial() -> ConfigModel {
        ConfigModel {
            cartridge: None,
            rom: None,
            button_mapping: default_bindings(),
            mute: false,
            comlynx: false,
            status: RunnerStatus::Running,
            rotation: Rotation::Unrotated,
            action: None,
        }
    }

    /// The record with `action` in its slot; an action that waited there is
    /// overwritten.
    pub open spec fn set_action(self, action: RunnerAction) -> ConfigModel {
        ConfigModel { action: Some(action), ..self }
    }

    /// The record with its slot emptied, and what the slot held.
    pub open spec fn take_action(self) -> (ConfigModel, Option<RunnerAction>) {
        (ConfigModel { action: None, ..self }, self.action)
    }

    /// The record after `key`, in lower case, is bound to `button`.
    pub open spec fn set_button_mapping_as_str(self, key: Seq<char>, button: Input) -> ConfigModel {
        ConfigModel { button_mapping: rebind(self.button_mapping, lowercase(key), button), ..self }
    }

    /// The button that the key named `key` stands for, whatever the case of
    /// the name.
    pub open spec fn button_for_key(self, key: Seq<char>) -> Option<Input> {
        if self.button_mapping.contains_key(lowercase(key)) {
            Some(self.button_mapping[lowercase(key)])
        } else {
            None
        }
    }

    /// The record after the bindings of `calls` were made in order.
    pub open spec fn after_bindings(self, calls: Seq<(Seq<char>, Input)>) -> ConfigModel
        decreases calls.len(),
    {
        if calls.len() == 0 {
            self
        } else {
            self.after_bindings(calls.drop_last()).set_button_mapping_as_str(
                calls.last().0,
                calls.last().1,
            )
        }
    }
}

/// The configuration record.
pub struct RunnerConfig {
    cartridge: Option<String>,
    rom: Option<String>,
    button_mapping: ButtonMap,
    mute: bool,
    comlynx: bool,
    status: RunnerStatus,
    rotation: Rotation,
    action: Option<RunnerAction>,
}

impl View for RunnerConfig {
    type V = ConfigModel;

    closed spec fn view(&self) -> ConfigModel {
        ConfigModel {
            cartridge: self.cartridge,
            rom: self.rom,
            button_mapping: self.button_mapping@,
            mute: self.mute,
            comlynx: self.comlynx,
            status: self.status,
            rotation: self.rotation,
            action: self.action,
        }
    }
}

impl Default for RunnerConfig {
    /// The record of a fresh start: nothing loaded, sound on, running, and
    /// the default keys.
    fn default() -> (config: RunnerConfig)
        ensures
            config@ == ConfigModel::initial(),
    {
        let mut table = ButtonMap::new();
        table.assign("up".to_owned(), Input::Up);
        table.assign("down".to_owned(), Input::Down);
        table.assign("left".to_owned(), Input::Left);
        table.assign("right".to_owned(), Input::Right);
        table.assign("q".to_owned(), Input::Outside);
        table.assign("w".to_owned(), Input::Inside);
        table.assign("1".to_owned(), Input::Option1);
        table.assign("2".to_owned(), Input::Option2);
        table.assign("p".to_owned(), Input::Pause);
        proof {
            reveal_strlit("up");
            reveal_strlit("down");
            reveal_strlit("left");
            reveal_strlit("right");
            reveal_strlit("q");
            reveal_strlit("w");
            reveal_strlit("1");
            reveal_strlit("2");
            reveal_strlit("p");
            assert("up"@.len() == 2 && "down"@.len() == 4 && "left"@.len() == 4 && "right"@.len()
                == 5);
            assert("down"@[0] != "left"@[0]);
            assert("q"@[0] != "w"@[0] && "q"@[0] != "1"@[0] && "q"@[0] != "2"@[0] && "q"@[0]
                != "p"@[0]);
            assert("w"@[0] != "1"@[0] && "w"@[0] != "2"@[0] && "w"@[0] != "p"@[0]);
            assert("1"@[0] != "2"@[0] && "1"@[0] != "p"@[0] && "2"@[0] != "p"@[0]);
            assert(table@ =~= default_bindings());
        }
        RunnerConfig {
            cartridge: None,
            rom: None,
            button_mapping: table,
            mute: false,
            comlynx: false,
            status: RunnerStatus::Running,
            rotation: Rotation::Unrotated,
            action: None,
        }
    }
}

impl Clone for RunnerConfig {
    fn clone(&self) -> (copy: RunnerConfig)
        ensures
            copy@ == self@,
    {
        RunnerConfig {
            cartridge: match &self.cartridge {
                Some(path) => Some(path.clone()),
                None => None,
            },
            rom: match &self.rom {
                Some(path) => Some(path.clone()),
                None => None,
            },
            button_mapping: self.button_mapping.clone(),
            mute: self.mute,
            comlynx: self.comlynx,
            status: self.status,
            rotation: self.rotation,
            action: match &self.action {
                Some(action) => Some(action.clone()),
                None => None,
            },
        }
    }
}

impl RunnerConfig {
    /// The record that a stored session gives: the stored fields as they
    /// are, the bindings made in the order of `bindings`, and neither a
    /// cartridge nor a pending action, which are never stored.
    pub fn from_persisted(
        rom: Option<String>,
        bindings: Vec<(String, Input)>,
        mute: bool,
        comlynx: bool,
        status: RunnerStatus,
        rotation: Rotation,
    ) -> (config: RunnerConfig)
        ensures
            config@ == (ConfigModel {
                cartridge: None,
                rom: rom,
                button_mapping: crate::button_map::rebind_all(
                    Map::<Seq<char>, Input>::empty(),
                    crate::button_map::binding_views(bindings@),
                ),
                mute: mute,
                comlynx: comlynx,
                status: status,
                rotation: rotation,
                action: None,
            }),
            injective(config@.button_mapping),
    {
        RunnerConfig {
            cartridge: None,
            rom,
            button_mapping: ButtonMap::from_bindings(bindings),
            mute,
            comlynx,
            status,
            rotation,
            action: None,
        }
    }

    /// The path of the system ROM that overrides the built-in one.
    pub fn rom(&self) -> (rom: &Option<String>)
        ensures
            *rom == self@.rom,
    {
        &self.rom
    }

    pub fn set_rom(&mut self, rom: String)
        ensures
            final(self)@ == (ConfigModel { rom: Some(rom), ..old(self)@ }),
    {
        self.rom = Some(rom);
    }

    /// The path of the cartridge.
    pub fn cartridge(&self) -> (cartridge: &Option<String>)
        ensures
            *cartridge == self@.cartridge,
    {
        &self.cartridge
    }

    pub fn set_cartridge(&mut self, cartridge: String)
        ensures
            final(self)@ == (ConfigModel { cartridge: Some(cartridge), ..old(self)@ }),
    {
        self.cartridge = Some(cartridge);
    }

    /// The key-to-button table.
    pub fn button_mapping(&self) -> (table: &ButtonMap)
        ensures
            table@ == self@.button_mapping,
    {
        &self.button_mapping
    }

    /// Binds the key named `key` to `button`, whatever the case of the name.
    /// The key that `button` had is dropped first, so that no button ever
    /// has two keys.
    pub fn set_button_mapping_as_str(&mut self, key: String, button: Input)
        ensures
            final(self)@ == old(self)@.set_button_mapping_as_str(key@, button),
            injective(final(self)@.button_mapping),
    {
        let lower = to_lowercase(key.as_str());
        self.bind_key(lower, button);
    }

    /// Binds `key`, taken as it is, to `button`.
    pub fn bind_key(&mut self, key: String, button: Input)
        ensures
            final(self)@ == (ConfigModel {
                button_mapping: rebind(old(self)@.button_mapping, key@, button),
                ..old(self)@
            }),
            injective(final(self)@.button_mapping),
    {
        self.button_mapping.assign(key, button);
    }

    /// The button that the key named `key` is bound to, whatever the case
    /// of the name.
    pub fn button_for_key(&self, key: &str) -> (button: Option<Input>)
        ensures
            button == self@.button_for_key(key@),
    {
        let lower = to_lowercase(key);
        self.button_mapping.button_for(lower.as_str())
    }

    pub fn mute(&self) -> (mute: bool)
        ensures
            mute == self@.mute,
    {
        self.mute
    }

    pub fn set_mute(&mut self, mute: bool)
        ensures
            final(self)@ == (ConfigModel { mute: mute, ..old(self)@ }),
    {
        self.mute = mute;
    }

    pub fn comlynx(&self) -> (comlynx: bool)
        ensures
            comlynx == self@.comlynx,
    {
        self.comlynx
    }

    pub fn set_comlynx(&mut self, comlynx: bool)
        ensures
            final(self)@ == (ConfigModel { comlynx: comlynx, ..old(self)@ }),
    {
        self.comlynx = comlynx;
    }

    pub fn status(&self) -> (status: RunnerStatus)
        ensures
            status == self@.status,
    {
        self.status
    }

    pub fn set_status(&mut self, status: RunnerStatus)
        ensures
            final(self)@ == (ConfigModel { status: status, ..old(self)@ }),
    {
        self.status = status;
    }

    pub fn rotation(&self) -> (rotation: Rotation)
        ensures
            rotation == self@.rotation,
    {
        self.rotation
    }

    pub fn set_rotation(&mut self, rotation: Rotation)
        ensures
            final(self)@ == (ConfigModel { rotation: rotation, ..old(self)@ }),
    {
        self.rotation = rotation;
    }

    /// Empties the action slot and hands out what it held.
    pub fn take_action(&mut self) -> (action: Option<RunnerAction>)
        ensures
            final(self)@ == old(self)@.take_action().0,
            action == old(self)@.take_action().1,
    {
        self.action.take()
    }

    /// Puts `action` into the slot, over whatever waited there.
    pub fn set_action(&mut self, action: RunnerAction)
        ensures
            final(self)@ == old(self)@.set_action(action),
    {
        self.action = Some(action);
    }

    /// The record to send to the runner: a copy of this one, pending action
    /// included.  The action then leaves this record, so that it is sent
    /// once.
    pub fn publish(&mut self) -> (sent: RunnerConfig)
        ensures
            sent@ == old(self)@,
            final(self)@ == old(self)@.take_action().0,
    {
        let sent = self.clone();
        self.action = None;
        sent
    }
}

/// An action that was set is handed out by the next take, and the take
/// after that finds the slot empty.
pub proof fn lemma_action_taken_once(config: ConfigModel, action: RunnerAction)
    ensures
        config.set_action(action).take_action().1 == Some(action),
        config.set_action(action).take_action().0.take_action().1 is None,
{
}

/// Of two actions set in a row only the second is handed out.
pub proof fn lemma_action_overwritten(config: ConfigModel, first: RunnerAction, second: RunnerAction)
    ensures
        config.set_action(first).set_action(second).take_action().1 == Some(second),
        config.set_action(first).set_action(second) == config.set_action(second),
{
}

/// Whatever keys are bound to whatever buttons, and in whatever order, after
/// each binding no button has two keys (and, the table being a map, no key
/// has two buttons).
pub proof fn lemma_button_mapping_stays_injective(
    config: ConfigModel,
    calls: Seq<(Seq<char>, Input)>,
)
    requires
        injective(config.button_mapping),
    ensures
        forall|n: int|
            0 <= n <= calls.len() ==> injective(
                (#[trigger] config.after_bindings(calls.take(n))).button_mapping,
            ),
{
    assert forall|n: int| 0 <= n <= calls.len() implies injective(
        (#[trigger] config.after_bindings(calls.take(n))).button_mapping,
    ) by {
        lemma_after_bindings_injective(config, calls.take(n));
    }
}

/// The table is injective after a whole list of bindings.
proof fn lemma_after_bindings_injective(config: ConfigModel, calls: Seq<(Seq<char>, Input)>)
    requires
        injective(config.button_mapping),
    ensures
        injective(config.after_bindings(calls).button_mapping),
    decreases calls.len(),
{
    if calls.len() > 0 {
        lemma_after_bindings_injective(config, calls.drop_last());
        lemma_rebind_injective(
            config.after_bindings(calls.drop_last()).button_mapping,
            lowercase(calls.last().0),
            calls.last().1,
        );
    }
}

/// Key names count without their case: a key that was bound to a button is
/// found under every name with the same lower-case form, and a name with
/// another lower-case form finds what it found before, unless it stood for
/// the same button.
pub proof fn lemma_bindings_ignore_case(
    config: ConfigModel,
    key: Seq<char>,
    button: Input,
    other: Seq<char>,
)
    ensures
        lowercase(other) == lowercase(key) ==> config.set_button_mapping_as_str(
            key,
            button,
        ).button_for_key(other) == Some(button),
        lowercase(other) != lowercase(key) && config.button_for_key(other) != Some(button)
            ==> config.set_button_mapping_as_str(key, button).button_for_key(other)
            == config.button_for_key(other),
        lowercase(other) != lowercase(key) && config.button_for_key(other) == Some(button)
            ==> config.set_button_mapping_as_str(key, button).button_for_key(other) is None,
{
}

/// The default bindings give every button one key of its own.
pub proof fn lemma_default_bindings_injective()
    ensures
        injective(default_bindings()),
        default_bindings().dom().finite(),
{
    reveal_strlit("up");
    reveal_strlit("down");
    reveal_strlit("left");
    reveal_strlit("right");
    reveal_strlit("q");
    reveal_strlit("w");
    reveal_strlit("1");
    reveal_strlit("2");
    reveal_strlit("p");
}

} // verus!
