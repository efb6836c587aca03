//! The per-iteration decisions of the frame-paced runner.
//!
//! The runner owns the working copy of the configuration, the audio
//! accumulator, the pacing state and the receiving ends of the input and
//! configuration channels.  Each function here is one step of the loop that
//! the emulation thread runs; what a step asks of the emulation core comes
//! back as a value, and the thread carries it out.

use crate::audio::{next_tick, sample_due, AccumulatorModel, SampleAccumulator};
use crate::channel::{drain_queued, senders_gone, try_take};
use crate::config::{ConfigModel, RunnerAction, RunnerConfig, RunnerStatus};
use crate::pacing::FramePacer;
use vstd::prelude::*;

verus! {

/// What one look at the input channel found.
#[derive(Clone, Copy, Debug, PartialEq, Eq, Structural)]
pub enum InputEvent {
    /// Every sender is gone: the runner is to stop.
    Shutdown,
    /// Joystick and switches bits to hand to the core.
    Apply(u8, u8),
    /// Nothing new.
    Idle,
}

/// The state of the runner.
#[derive(Clone, Copy, Debug, PartialEq, Eq, Structural)]
pub enum RunnerPhase {
    /// No cartridge is configured: only input and configuration are polled.
    AwaitingCartridge,
    /// A cartridge is configured and the core advances.
    Running,
    /// A cartridge is configured and the core stands still.
    Paused,
}

/// What the emulation thread is to do with the core after a configuration
/// step.
#[derive(Debug, PartialEq, Eq)]
pub enum CoreCommand {
    /// Leave the core alone.
    Idle,
    /// Load the cartridge file at `path` into the core if it can be read
    /// and parsed, then reset the core either way.
    LoadCart { path: String },
    /// Load the ROM file at `path` into the core if it can be read and
    /// parsed, then reset the core if `reset` is set.
    LoadRom { path: String, reset: bool },
    /// Reset the core.
    Reset,
    /// Replace the core by the snapshot stored at `path`.
    LoadState { path: String },
    /// Store a snapshot of the core at `path`.
    SaveState { path: String },
}

/// What the emulation thread does when a command cannot be carried out.
#[derive(Clone, Copy, Debug, PartialEq, Eq, Structural)]
pub enum Reaction {
    /// Go on as if nothing had been asked; what was loaded before stays.
    Ignore,
    /// Write the failure to the diagnostic stream and go on with the core
    /// as it was.
    Report,
    /// Stop the process.
    Abort,
}

/// Whether carrying out `command` ends with a reset of the core.
pub open spec fn resets_core(command: CoreCommand) -> bool {
    match command {
        CoreCommand::LoadCart { .. } => true,
        CoreCommand::LoadRom { reset, .. } => reset,
        CoreCommand::Reset => true,
        _ => false,
    }
}

/// The reaction to a failure of `command`: a file that cannot be read or
/// parsed is passed over when it is a cartridge or a ROM and reported when
/// it is a snapshot; a snapshot that cannot be made or written is fatal.
pub open spec fn reaction_to_failure(command: CoreCommand) -> Reaction {
    match command {
        CoreCommand::LoadState { .. } => Reaction::Report,
        CoreCommand::SaveState { .. } => Reaction::Abort,
        _ => Reaction::Ignore,
    }
}

/// The event that a look at the input channel amounts to.  A channel without
/// senders stops the runner even if samples are still queued.
pub open spec fn input_event(disconnected: bool, sample: Option<(u8, u8)>) -> InputEvent {
    if disconnected {
        InputEvent::Shutdown
    } else {
        match sample {
            Some((joystick, switches)) => InputEvent::Apply(joystick, switches),
            None => InputEvent::Idle,
        }
    }
}

/// The state that a configuration puts the runner in.
pub open spec fn phase_of(config: ConfigModel) -> RunnerPhase {
    if config.cartridge is None {
        RunnerPhase::AwaitingCartridge
    } else if config.status == RunnerStatus::Running {
        RunnerPhase::Running
    } else {
        RunnerPhase::Paused
    }
}

/// What the pending action of `config` asks of the core.  A core is reset
/// only while a cartridge is configured; a load without a path loads
/// nothing.
pub open spec fn command_for(config: ConfigModel) -> CoreCommand {
    match config.action {
        None => CoreCommand::Idle,
        Some(RunnerAction::LoadCart) => match config.cartridge {
            Some(path) => CoreCommand::LoadCart { path },
            None => CoreCommand::Idle,
        },
        Some(RunnerAction::LoadROM) => match config.rom {
            Some(path) => CoreCommand::LoadRom { path, reset: config.cartridge is Some },
            None => if config.cartridge is Some {
                CoreCommand::Reset
            } else {
                CoreCommand::Idle
            },
        },
        Some(RunnerAction::Reset) => if config.cartridge is Some {
            CoreCommand::Reset
        } else {
            CoreCommand::Idle
        },
        Some(RunnerAction::LoadState(path)) => CoreCommand::LoadState { path },
        Some(RunnerAction::SaveState(path)) => CoreCommand::SaveState { path },
    }
}

/// The newest of the records that were queued, if any was.
pub open spec fn latest_of(queued: Seq<RunnerConfig>) -> Option<ConfigModel> {
    if queued.len() > 0 {
        Some(queued.last()@)
    } else {
        None
    }
}

/// What the runner holds, the channels aside.
pub struct RunnerModel {
    pub config: ConfigModel,
    pub audio: AccumulatorModel,
    pub pacer: FramePacer,
}

impl RunnerModel {
    /// The configuration step: the newest queued record, if there is one,
    /// replaces the working copy whole; the pending action of the working
    /// copy is then taken out and turned into a command.
    pub open spec fn config_update(self, latest: Option<ConfigModel>) -> (RunnerModel, CoreCommand) {
        let effective = match latest {
            Some(config) => config,
            None => self.config,
        };
        (RunnerModel { config: effective.take_action().0, ..self }, command_for(effective))
    }
}

impl InputEvent {
    /// The event that a look at the input channel amounts to.
    pub fn classify(disconnected: bool, sample: Option<(u8, u8)>) -> (event: InputEvent)
        ensures
            event == input_event(disconnected, sample),
    {
        if disconnected {
            InputEvent::Shutdown
        } else {
            match sample {
                Some((joystick, switches)) => InputEvent::Apply(joystick, switches),
                None => InputEvent::Idle,
            }
        }
    }
}

impl CoreCommand {
    /// Whether the core is reset once the command was carried out, whether
    /// or not its file could be loaded.
    pub fn resets_core(&self) -> (reset: bool)
        ensures
            reset == resets_core(*self),
    {
        match self {
            CoreCommand::LoadCart { .. } => true,
            CoreCommand::LoadRom { reset, .. } => *reset,
            CoreCommand::Reset => true,
            _ => false,
        }
    }

    /// What to do when the command cannot be carried out.
    pub fn on_failure(&self) -> (reaction: Reaction)
        ensures
            reaction == reaction_to_failure(*self),
    {
        match self {
            CoreCommand::LoadState { .. } => Reaction::Report,
            CoreCommand::SaveState { .. } => Reaction::Abort,
            _ => Reaction::Ignore,
        }
    }

    /// What `action`, taken from `config`, asks of the core.
    pub fn for_action(config: &RunnerConfig, action: Option<RunnerAction>) -> (command: CoreCommand)
        ensures
            command == command_for(ConfigModel { action: action, ..config@ }),
    {
        match action {
            None => CoreCommand::Idle,
            Some(RunnerAction::LoadCart) => match config.cartridge() {
                Some(path) => CoreCommand::LoadCart { path: path.clone() },
                None => CoreCommand::Idle,
            },
            Some(RunnerAction::LoadROM) => {
                let reset = config.cartridge().is_some();
                match config.rom() {
                    Some(path) => CoreCommand::LoadRom { path: path.clone(), reset },
                    None => if reset {
                        CoreCommand::Reset
                    } else {
                        CoreCommand::Idle
                    },
                }
            },
            Some(RunnerAction::Reset) => if config.cartridge().is_some() {
                CoreCommand::Reset
            } else {
                CoreCommand::Idle
            },
            Some(RunnerAction::LoadState(path)) => CoreCommand::LoadState { path },
            Some(RunnerAction::SaveState(path)) => CoreCommand::SaveState { path },
        }
    }
}

/// The state of the frame-paced runner.
pub struct PerFrameRunnerThread {
    config: RunnerConfig,
    audio: SampleAccumulator,
    pacer: FramePacer,
    input_rx: kanal::Receiver<(u8, u8)>,
    config_rx: kanal::Receiver<RunnerConfig>,
}

impl View for PerFrameRunnerThread {
    type V = RunnerModel;

    closed spec fn view(&self) -> RunnerModel {
        RunnerModel { config: self.config@, audio: self.audio@, pacer: self.pacer }
    }
}

impl PerFrameRunnerThread {
    /// A runner that starts at `now` with `config`: no samples, the first
    /// frame due at once, the initial frame period.
    pub fn new(
        config: RunnerConfig,
        input_rx: kanal::Receiver<(u8, u8)>,
        config_rx: kanal::Receiver<RunnerConfig>,
        now: u64,
    ) -> (runner: PerFrameRunnerThread)
        ensures
            runner@ == (RunnerModel {
                config: config@,
                audio: AccumulatorModel { tick: 0, samples: Seq::empty() },
                pacer: FramePacer {
                    frame_time: crate::pacing::INITIAL_FRAME_TIME,
                    last_refresh_rate: 0,
                    next_lcd_refresh: now,
                },
            }),
    {
        PerFrameRunnerThread {
            config,
            audio: SampleAccumulator::new(),
            pacer: FramePacer::new(now),
            input_rx,
            config_rx,
        }
    }

    /// The working copy of the configuration.
    pub fn config(&self) -> (config: &RunnerConfig)
        ensures
            config@ == self@.config,
    {
        &self.config
    }

    /// The pacing state.
    pub fn pacer(&self) -> (pacer: FramePacer)
        ensures
            pacer == self@.pacer,
    {
        self.pacer
    }

    /// Looks at the input channel once, without waiting: the runner is to
    /// stop when no sender is left, and otherwise at most one queued sample
    /// is taken.  The event is `input_event` of what the channel reported,
    /// as `InputEvent::classify` states it.
    pub fn inputs(&self) -> (event: InputEvent) {
        if senders_gone(&self.input_rx) {
            InputEvent::classify(true, None)
        } else {
            InputEvent::classify(false, try_take(&self.input_rx))
        }
    }

    /// The configuration step on the records that are queued on the
    /// configuration channel right now: see `apply_config`.  Which records
    /// are queued is the sender's doing; whatever they are, the step is
    /// `RunnerModel::config_update` of the newest of them.
    pub fn config_update(&mut self) -> (command: CoreCommand)
        ensures
            exists|latest: Option<ConfigModel>|
                #[trigger] old(self)@.config_update(latest) == (final(self)@, command),
            final(self)@.config.action is None,
            final(self)@.audio == old(self)@.audio,
            final(self)@.pacer == old(self)@.pacer,
    {
        let mut queued: Vec<RunnerConfig> = Vec::new();
        drain_queued(&self.config_rx, &mut queued);
        let command = self.apply_config(queued);
        proof {
            let latest = latest_of(queued@);
            assert(old(self)@.config_update(latest) == (self@, command));
        }
        command
    }

    /// The configuration step on `queued`, the records received since the
    /// last step, oldest first.  The newest record replaces the working copy
    /// whole and the older ones are skipped; the pending action of the
    /// working copy is taken out, so that it is carried out once, and comes
    /// back as the command for the core.
    pub fn apply_config(&mut self, queued: Vec<RunnerConfig>) -> (command: CoreCommand)
        ensures
            (final(self)@, command) == old(self)@.config_update(latest_of(queued@)),
    {
        let mut queued = queued;
        match queued.pop() {
            Some(config) => {
                self.config = config;
            },
            None => {},
        }
        let action = self.config.take_action();
        CoreCommand::for_action(&self.config, action)
    }

    /// The state of the runner.
    pub fn phase(&self) -> (phase: RunnerPhase)
        ensures
            phase == phase_of(self@.config),
    {
        if self.config.cartridge().is_none() {
            RunnerPhase::AwaitingCartridge
        } else {
            match self.config.status() {
                RunnerStatus::Running => RunnerPhase::Running,
                RunnerStatus::Paused => RunnerPhase::Paused,
            }
        }
    }

    /// Whether the core is to be ticked once more before the frame ends:
    /// it is while the runner is running and the core has not asked for a
    /// redraw.
    pub fn should_tick(&self, redraw_requested: bool) -> (tick: bool)
        ensures
            tick == (phase_of(self@.config) == RunnerPhase::Running && !redraw_requested),
    {
        match self.phase() {
            RunnerPhase::Running => !redraw_requested,
            _ => false,
        }
    }

    /// The audio step of one tick of the core.  Returns whether a stereo
    /// pair is due, which the caller then reads from the core and hands to
    /// `push_sample`.  No pair is ever due while the sound is muted.
    pub fn sound(&mut self) -> (due: bool)
        ensures
            due == sample_due(old(self)@.audio.tick, old(self)@.config.mute),
            final(self)@ == (RunnerModel {
                audio: AccumulatorModel {
                    tick: next_tick(old(self)@.audio.tick),
                    samples: old(self)@.audio.samples,
                },
                ..old(self)@
            }),
    {
        let muted = self.config.mute();
        self.audio.advance(muted)
    }

    /// Appends the stereo pair that the core gave.
    pub fn push_sample(&mut self, left: i16, right: i16)
        ensures
            final(self)@ == (RunnerModel {
                audio: AccumulatorModel {
                    tick: old(self)@.audio.tick,
                    samples: old(self)@.audio.samples.push(left).push(right),
                },
                ..old(self)@
            }),
    {
        self.audio.push(left, right);
    }

    /// The audio flush at the end of a frame: the samples of the frame as
    /// one buffer for the audio sink, if there are any, and an empty
    /// accumulator for the next frame.
    pub fn take_samples(&mut self) -> (buffer: Option<Vec<i16>>)
        ensures
            final(self)@ == (RunnerModel {
                audio: AccumulatorModel {
                    tick: old(self)@.audio.tick,
                    samples: Seq::<i16>::empty(),
                },
                ..old(self)@
            }),
            match buffer {
                Some(samples) => samples@ == old(self)@.audio.samples && samples@.len() > 0,
                None => old(self)@.audio.samples.len() == 0,
            },
    {
        self.audio.flush()
    }

    /// Whether `rate` differs from the refresh rate last recorded.
    pub fn refresh_rate_changed(&self, rate: u64) -> (changed: bool)
        ensures
            changed == (rate != self@.pacer.last_refresh_rate),
    {
        self.pacer.refresh_rate_changed(rate)
    }

    /// The refresh-rate step at the end of a frame: a rate that differs from
    /// the one last recorded is recorded with `frame_time`, the period that
    /// belongs to it.  Returns whether the period was replaced.
    pub fn observe_refresh_rate(&mut self, rate: u64, frame_time: u64) -> (changed: bool)
        ensures
            changed == (rate != old(self)@.pacer.last_refresh_rate),
            final(self)@ == (RunnerModel {
                pacer: old(self)@.pacer.observed(rate, frame_time),
                ..old(self)@
            }),
    {
        self.pacer.observe_refresh_rate(rate, frame_time)
    }

    /// Whether the deadline of the current frame is reached at `now`.
    pub fn frame_due(&self, now: u64) -> (due: bool)
        ensures
            due == (self@.pacer.next_lcd_refresh <= now),
    {
        self.pacer.frame_due(now)
    }

    /// Moves the deadline on by one frame period.
    pub fn schedule_next(&mut self)
        requires
            old(self)@.pacer.next_lcd_refresh + old(self)@.pacer.frame_time <= u64::MAX,
        ensures
            final(self)@ == (RunnerModel {
                pacer: FramePacer {
                    next_lcd_refresh: (old(self)@.pacer.next_lcd_refresh
                        + old(self)@.pacer.frame_time) as u64,
                    ..old(self)@.pacer
                },
                ..old(self)@
            }),
    {
        self.pacer.schedule_next();
    }
}

/// A reset that finds no cartridge configured asks nothing of the core,
/// whether the action came with a new record or waited in the working copy.
pub proof fn lemma_reset_without_cartridge(runner: RunnerModel, latest: Option<ConfigModel>)
    requires
        ({
            let effective = match latest {
                Some(config) => config,
                None => runner.config,
            };
            effective.action == Some(RunnerAction::Reset) && effective.cartridge is None
        }),
    ensures
        runner.config_update(latest).1 == CoreCommand::Idle,
        runner.config_update(latest).0.audio == runner.audio,
        runner.config_update(latest).0.pacer == runner.pacer,
        runner.config_update(latest).0.config.cartridge is None,
{
}

/// An action is carried out once: the step after the one that took it finds
/// nothing to do, unless a new record brings a new action.
pub proof fn lemma_action_carried_out_once(runner: RunnerModel, latest: Option<ConfigModel>)
    ensures
        runner.config_update(latest).0.config_update(None).1 == CoreCommand::Idle,
        runner.config_update(latest).0.config_update(None).0 == runner.config_update(latest).0,
{
}

/// The core is reset only while a cartridge is configured, whatever the
/// action; with a cartridge, a reset follows every cartridge load, ROM load
/// and reset that was asked for.
pub proof fn lemma_reset_needs_cartridge(config: ConfigModel)
    ensures
        config.cartridge is None ==> !resets_core(command_for(config)),
        config.cartridge is Some ==> (resets_core(command_for(config)) <==> (config.action == Some(
            RunnerAction::LoadCart,
        ) || config.action == Some(RunnerAction::LoadROM) || config.action == Some(
            RunnerAction::Reset,
        ))),
{
}

} // verus!
