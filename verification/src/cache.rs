//! The commands found at the last scan, and the time of that scan.

use vstd::prelude::*;
use crate::command::{CommandView, CustomCommand};
use crate::error::{CustomCommandError, ErrorView};
use crate::executor::{started, CustomCommandExecutor, ExpansionState, SecurityMode, is_settled};
use crate::registry::CommandSet;
use crate::security::default_policy;

verus! {

/// The time after which a scan is out of date, in milliseconds.
pub open spec fn default_scan_interval() -> u64 {
    30000
}

/// The commands found at the last scan. Times are in milliseconds on a clock
/// of the caller that never runs backwards.
#[derive(Debug)]
pub struct CustomCommandCache {
    commands: CommandSet,
    last_scan: u64,
    scan_interval: u64,
}

impl View for CustomCommandCache {
    type V = Map<Seq<char>, CommandView>;

    closed spec fn view(&self) -> Map<Seq<char>, CommandView> {
        self.commands@
    }
}

impl CustomCommandCache {
    /// The time of the last scan.
    pub closed spec fn last_scan(&self) -> u64 {
        self.last_scan
    }

    /// The time after which a scan is out of date.
    pub closed spec fn scan_interval(&self) -> u64 {
        self.scan_interval
    }

    /// Whether the last scan is out of date at the time `now`: more than the
    /// interval has passed since.
    pub open spec fn is_stale(&self, now: u64) -> bool {
        now - self.last_scan() > self.scan_interval()
    }

    /// An empty cache made at the time `now`, with an interval of thirty
    /// seconds.
    pub fn new(now: u64) -> (cache: Self)
        ensures
            cache@ == Map::<Seq<char>, CommandView>::empty(),
            cache.last_scan() == now,
            cache.scan_interval() == default_scan_interval(),
    {
        CustomCommandCache { commands: CommandSet::new(), last_scan: now, scan_interval: 30000 }
    }

    /// Whether the commands are to be scanned anew at the time `now`.
    pub fn needs_rescan(&self, now: u64) -> (r: bool)
        ensures
            r == self.is_stale(now),
    {
        now > self.last_scan && now - self.last_scan > self.scan_interval
    }

    /// The command called `name`, as of the last scan.
    pub fn get_command(&self, name: &str) -> (found: Option<&CustomCommand>)
        ensures
            match found {
                Some(command) => self@.contains_key(name@) && self@[name@] == command@,
                None => !self@.contains_key(name@),
            },
    {
        self.commands.get(name)
    }

    /// The commands as of the last scan.
    pub fn commands(&self) -> (set: &CommandSet)
        ensures
            set@ == self@,
    {
        &self.commands
    }

    /// The names of the commands, each once.
    pub fn command_names(&self) -> (names: Vec<String>)
        ensures
            names.deep_view().no_duplicates(),
            names.deep_view().to_set() == self@.dom(),
    {
        self.commands.names()
    }

    /// Takes over the commands of a scan made at the time `now`.
    pub fn refresh(&mut self, commands: CommandSet, now: u64)
        ensures
            final(self)@ == commands@,
            final(self).last_scan() == now,
            final(self).scan_interval() == old(self).scan_interval(),
    {
        self.commands = commands;
        self.last_scan = now;
    }

    /// Puts `command` into the cache, in place of the command of the same
    /// name if there is one.
    pub fn add_command(&mut self, command: CustomCommand)
        ensures
            final(self)@ == old(self)@.insert(command@.name, command@),
            final(self).last_scan() == old(self).last_scan(),
            final(self).scan_interval() == old(self).scan_interval(),
    {
        self.commands.insert(command);
    }

    /// Takes the command called `name` out of the cache and hands it back.
    pub fn remove_command(&mut self, name: &str) -> (removed: Option<CustomCommand>)
        ensures
            final(self)@ == old(self)@.remove(name@),
            final(self).last_scan() == old(self).last_scan(),
            final(self).scan_interval() == old(self).scan_interval(),
            match removed {
                Some(command) => old(self)@.contains_key(name@) && old(self)@[name@] == command@,
                None => !old(self)@.contains_key(name@),
            },
    {
        self.commands.remove(name)
    }
}

/// The commands of a session and the way to expand them.
#[derive(Debug)]
pub struct CustomCommandManager {
    cache: CustomCommandCache,
}

impl View for CustomCommandManager {
    type V = Map<Seq<char>, CommandView>;

    closed spec fn view(&self) -> Map<Seq<char>, CommandView> {
        self.cache@
    }
}

impl CustomCommandManager {
    /// The cache of the manager.
    pub closed spec fn cached(&self) -> CustomCommandCache {
        self.cache
    }

    /// A manager without commands, made at the time `now`.
    pub fn new(now: u64) -> (manager: Self)
        ensures
            manager@ == Map::<Seq<char>, CommandView>::empty(),
            manager.cached().last_scan() == now,
            manager.cached().scan_interval() == default_scan_interval(),
    {
        CustomCommandManager { cache: CustomCommandCache::new(now) }
    }

    /// Whether the commands are to be scanned anew at the time `now`.
    pub fn needs_rescan(&self, now: u64) -> (r: bool)
        ensures
            r == self.cached().is_stale(now),
    {
        self.cache.needs_rescan(now)
    }

    /// Takes over the commands of a scan made at the time `now`.
    pub fn refresh(&mut self, commands: CommandSet, now: u64)
        ensures
            final(self)@ == commands@,
            final(self).cached().last_scan() == now,
            final(self).cached().scan_interval() == old(self).cached().scan_interval(),
    {
        self.cache.refresh(commands, now);
    }

    /// Begins the expansion of the command called `command_name` with a
    /// strict engine under the default policy. A name that no command has is
    /// refused.
    pub fn execute_command(&self, command_name: &str, args: &[String]) -> (out: Result<
        ExpansionState,
        CustomCommandError,
    >)
        ensures
            match out {
                Ok(state) => self@.contains_key(command_name@) && state@ == started(
                    SecurityMode::Strict,
                    self@[command_name@],
                    args.deep_view(),
                    default_policy(),
                ) && is_settled(state@),
                Err(e) => !self@.contains_key(command_name@) && e@ == ErrorView::CommandNotFound(
                    command_name@,
                ),
            },
    {
        match self.cache.get_command(command_name) {
            Some(command) => {
                let executor = CustomCommandExecutor::new();
                Ok(executor.execute(command, args))
            },
            None => Err(CustomCommandError::CommandNotFound(command_name.to_string())),
        }
    }

    /// The commands as of the last scan.
    pub fn commands(&self) -> (set: &CommandSet)
        ensures
            set@ == self@,
    {
        self.cache.commands()
    }

    /// The names of the commands, each once.
    pub fn list_commands(&self) -> (names: Vec<String>)
        ensures
            names.deep_view().no_duplicates(),
            names.deep_view().to_set() == self@.dom(),
    {
        self.cache.command_names()
    }

    /// The command called `command_name`. A name that no command has is
    /// refused.
    pub fn get_command_info(&self, command_name: &str) -> (out: Result<
        &CustomCommand,
        CustomCommandError,
    >)
        ensures
            match out {
                Ok(command) => self@.contains_key(command_name@) && self@[command_name@]
                    == command@,
                Err(e) => !self@.contains_key(command_name@) && e@ == ErrorView::CommandNotFound(
                    command_name@,
                ),
            },
    {
        match self.cache.get_command(command_name) {
            Some(command) => Ok(command),
            None => Err(CustomCommandError::CommandNotFound(command_name.to_string())),
        }
    }
}

} // verus!
