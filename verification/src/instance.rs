//! Start-up of a process: its configuration and its role among the
//! instances that run.

use crate::config::{ConfigModel, RunnerConfig};
use vstd::prelude::*;

verus! {

/// What a process is to do once it has tried to take the instance lock.
#[derive(Clone, Copy, Debug, PartialEq, Eq, Structural)]
pub enum StartupRole {
    /// The lock is held: start up, and keep the lock while the process
    /// lives.
    Primary,
    /// Another instance holds the lock and only one may run: post the
    /// cartridge path to the shared segment and exit with success.
    Secondary,
    /// Another instance holds the lock and more than one may run: start up
    /// without the lock.
    Additional,
}

/// The role of a process, given whether it got the lock and whether a single
/// instance was asked for.
pub open spec fn role_of(lock_acquired: bool, single_instance: bool) -> StartupRole {
    if lock_acquired {
        StartupRole::Primary
    } else if single_instance {
        StartupRole::Secondary
    } else {
        StartupRole::Additional
    }
}

/// The role of a process, given whether it got the lock and whether a single
/// instance was asked for.
pub fn startup_role(lock_acquired: bool, single_instance: bool) -> (role: StartupRole)
    ensures
        role == role_of(lock_acquired, single_instance),
{
    if lock_acquired {
        StartupRole::Primary
    } else if single_instance {
        StartupRole::Secondary
    } else {
        StartupRole::Additional
    }
}

/// The configuration that the command line gives: the defaults, with the
/// cartridge and the ROM that were named.
pub fn process_args(cartridge: Option<String>, rom: Option<String>) -> (config: RunnerConfig)
    ensures
        config@ == (ConfigModel { cartridge: cartridge, rom: rom, ..ConfigModel::initial() }),
{
    let mut config = RunnerConfig::default();
    match rom {
        Some(path) => {
            config.set_rom(path);
        },
        None => {},
    }
    match cartridge {
        Some(path) => {
            config.set_cartridge(path);
        },
        None => {},
    }
    config
}

/// A process hands its cartridge over and leaves exactly when it asked for a
/// single instance and found the lock taken.
pub proof fn lemma_secondary_iff(lock_acquired: bool, single_instance: bool)
    ensures
        role_of(lock_acquired, single_instance) == StartupRole::Secondary <==> (!lock_acquired
            && single_instance),
        role_of(lock_acquired, single_instance) == StartupRole::Primary <==> lock_acquired,
{
}

} // verus!
