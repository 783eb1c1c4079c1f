//! What the application sets up when it starts, and in which order: the
//! decisions are taken here, and the host framework carries them out.

use crate::migration::{create_download_list, migrations, Migration, DATABASE_URL};
use vstd::prelude::*;

verus! {

/// A capability of the host framework that the application registers.
#[derive(Clone, Copy, Debug, PartialEq, Eq)]
pub enum Plugin {
    /// Control over the application's own process.
    Process,
    /// The check for a newer release.
    Updater,
    /// The HTTP client.
    Http,
    /// The embedded database, which holds the download list.
    Sql,
    /// Access to the shell.
    Shell,
}

/// How much the log plugin records.
#[derive(Clone, Copy, Debug, PartialEq, Eq)]
pub enum LogLevel {
    Off,
    Error,
    Warn,
    Info,
    Debug,
    Trace,
}

/// What the start depends on.
#[derive(Clone, Copy, Debug, PartialEq, Eq)]
pub struct StartupConfig {
    /// The application was built for development.
    pub debug_build: bool,
}

/// The steps of a start.
#[derive(Clone, Debug, PartialEq, Eq)]
pub struct StartupPlan {
    /// The plugins to register, first to last.
    pub plugins: Vec<Plugin>,
    /// The database that the `Sql` plugin opens.
    pub database_url: &'static str,
    /// The migrations that the `Sql` plugin applies to that database.
    pub migrations: Vec<Migration>,
    /// The level at which the log plugin is registered once the others
    /// are; `None` where it is not registered at all.
    pub log_level: Option<LogLevel>,
}

/// The plugins of every start, in the order of their registration.
pub open spec fn plugin_order() -> Seq<Plugin> {
    seq![Plugin::Process, Plugin::Updater, Plugin::Http, Plugin::Sql, Plugin::Shell]
}

/// The log level of a start: a development build logs at `Info`, any other
/// build does not log.
pub open spec fn log_level_for(debug_build: bool) -> Option<LogLevel> {
    if debug_build {
        Some(LogLevel::Info)
    } else {
        None
    }
}

/// The plan of a start under `config`.
pub fn startup_plan(config: &StartupConfig) -> (plan: StartupPlan)
    ensures
        plan.plugins@ == plugin_order(),
        plan.database_url@ == DATABASE_URL@,
        plan.migrations@.len() == 1,
        plan.migrations@[0]@ == create_download_list(),
        plan.log_level == log_level_for(config.debug_build),
{
    let mut plugins: Vec<Plugin> = Vec::new();
    plugins.push(Plugin::Process);
    plugins.push(Plugin::Updater);
    plugins.push(Plugin::Http);
    plugins.push(Plugin::Sql);
    plugins.push(Plugin::Shell);
    let log_level = if config.debug_build {
        Some(LogLevel::Info)
    } else {
        None
    };
    assert(plugins@ =~= plugin_order());
    StartupPlan { plugins, database_url: DATABASE_URL, migrations: migrations(), log_level }
}

} // verus!
