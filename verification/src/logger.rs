//! What a logger is configured with. The configuration is a plain value
//! that is handed to whoever builds the logger.

use vstd::prelude::*;

verus! {

/// Where log lines go.
#[derive(Clone, Copy, Debug, PartialEq, Eq, Structural)]
pub enum Destination {
    Stdout,
    Stderr,
}

/// The least severe level that is still logged.
#[derive(Clone, Copy, Debug, PartialEq, Eq, Structural)]
pub enum Level {
    Error,
    Warn,
    Info,
    Debug,
    Trace,
}

/// How much of the source location a log line shows.
#[derive(Clone, Copy, Debug, PartialEq, Eq, Structural)]
pub enum Source {
    /// No source location.
    Off,
    /// The module and the line.
    Module,
    /// The file and the line.
    File,
}

/// The settings of a logger.
#[derive(Clone, Copy, Debug, PartialEq, Eq, Structural)]
pub struct LogConfig {
    pub level: Level,
    pub destination: Destination,
    pub source: Source,
}

/// The setters of a logger configuration. Each changes one setting and
/// leaves the others.
pub trait LoggerConfigTrait: Sized {
    /// The settings that this value stands for.
    spec fn config(&self) -> LogConfig;

    /// Sets the level. The returned reference is the configuration itself,
    /// so that setters can be chained.
    fn level(&mut self, level: Level) -> (r: &mut Self)
        ensures
            r.config() == (LogConfig { level, ..old(self).config() }),
            *final(self) == *final(r),
    ;

    /// Sets the destination.
    fn destination(&mut self, dest: Destination) -> (r: &mut Self)
        ensures
            r.config() == (LogConfig { destination: dest, ..old(self).config() }),
            *final(self) == *final(r),
    ;

    /// Sets how much of the source location is shown.
    fn source(&mut self, source: Source) -> (r: &mut Self)
        ensures
            r.config() == (LogConfig { source, ..old(self).config() }),
            *final(self) == *final(r),
    ;
}

impl LogConfig {
    /// The settings a logger starts with: debug level, standard error, no
    /// source location.
    pub open spec fn initial() -> LogConfig {
        LogConfig { level: Level::Debug, destination: Destination::Stderr, source: Source::Off }
    }

    pub fn new() -> (r: Self)
        ensures
            r == LogConfig::initial(),
    {
        LogConfig { level: Level::Debug, destination: Destination::Stderr, source: Source::Off }
    }
}

impl LoggerConfigTrait for LogConfig {
    open spec fn config(&self) -> LogConfig {
        *self
    }

    fn level(&mut self, level: Level) -> (r: &mut Self) {
        self.level = level;
        self
    }

    fn destination(&mut self, dest: Destination) -> (r: &mut Self) {
        self.destination = dest;
        self
    }

    fn source(&mut self, source: Source) -> (r: &mut Self) {
        self.source = source;
        self
    }
}

/// Builds the configuration of a logger from its three settings.
pub fn configure(level: Level, destination: Destination, source: Source) -> (r: LogConfig)
    ensures
        r == (LogConfig { level, destination, source }),
{
    let mut config = LogConfig::new();
    config.level(level).destination(destination).source(source);
    config
}

} // verus!
