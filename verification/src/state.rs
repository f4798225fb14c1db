//! The filter's state machine: one-time initialisation and reload checks.
//!
//! The machine never touches the file system. Each [`FilterState::step`]
//! takes an [`Event`], moves the state on and answers with the [`Action`]
//! that the caller has to perform next; the caller hands the outcome of that
//! action back as the next event. A record is ready to be processed when the
//! answer is [`Action::Process`].
//!
//! The database handle is a type parameter: the machine stores the handle and
//! hands it out, and never looks inside.

use vstd::prelude::*;
use matchy_extractor::{Extractor, ExtractorError};
use crate::config::Config;
use crate::extract::{build_extractor, built_extractor};

verus! {

/// The modification time of a file, as its distance from the Unix epoch.
#[derive(Clone, Copy, Debug, PartialEq, Eq, Structural)]
pub struct FileStamp {
    /// Whether the time lies before the epoch.
    pub before_epoch: bool,
    /// Whole seconds between the time and the epoch.
    pub secs: u64,
    /// The nanoseconds beyond those seconds.
    pub nanos: u32,
}

/// A database that was read and parsed, with the modification time that its
/// file had when it was read, if that could be found out.
pub struct Loaded<D> {
    pub database: D,
    pub modified: Option<FileStamp>,
}

/// Everything a usable filter owns. The three handles exist together or not
/// at all: a filter is either fully usable or inert.
pub struct Engine<D> {
    pub config: Config,
    pub database: D,
    pub extractor: Extractor,
    /// The modification time seen when `database` was loaded.
    pub database_mtime: Option<FileStamp>,
}

/// A configuration and the extractor built from it, waiting for the first
/// database load to succeed.
pub struct Staged {
    pub config: Config,
    pub extractor: Extractor,
}

/// Where a filter instance stands.
pub enum Stage<D> {
    /// Nothing has happened yet.
    Fresh,
    /// Initialisation has begun; the configuration document is being read.
    AwaitingConfig,
    /// The configuration is parsed and the extractor built; the database is
    /// being read for the first time.
    AwaitingDatabase(Staged),
    /// Initialisation has failed. It is never tried again.
    Inert,
    /// Usable, with nothing pending.
    Ready(Engine<D>),
    /// Usable; a reload check is due and the database file's modification
    /// time is being read.
    AwaitingStat(Engine<D>),
    /// Usable; the database file has changed and is being read again.
    AwaitingReload(Engine<D>),
}

/// What the caller reports to the machine.
pub enum Event<D> {
    /// A record arrived, with this timestamp in whole seconds.
    Record(u32),
    /// The configuration document was read and parsed, or could not be.
    Config(Option<Config>),
    /// The database file was read and parsed, or could not be.
    Database(Option<Loaded<D>>),
    /// The database file's modification time was read, or could not be.
    Stat(Option<FileStamp>),
}

/// What the caller has to do next.
#[derive(Clone, Debug, PartialEq, Eq)]
pub enum Action {
    /// Read and parse the configuration document; report `Event::Config`.
    ReadConfig,
    /// Read and parse the database file at this path; report
    /// `Event::Database`.
    ReadDatabase(String),
    /// Read the modification time of the file at this path; report
    /// `Event::Stat`.
    StatDatabase(String),
    /// Nothing is pending: process the record.
    Process,
}

/// A diagnostic for the operator. None of them changes what happens to a
/// record.
#[derive(Clone, Copy, Debug, PartialEq, Eq)]
pub enum Notice {
    /// No usable configuration: the filter stays inert.
    ConfigMissing,
    /// The extractor could not be built: the filter stays inert.
    ExtractorBuildFailed,
    /// The filter is usable and checks for a changed database at this
    /// interval, in seconds.
    AutoReloadEnabled(u64),
    /// The database file has changed and is about to be read again.
    DatabaseChanged,
}

/// The machine's answer to an event.
pub struct Step {
    pub action: Action,
    pub notice: Option<Notice>,
}

/// A filter state as plain data.
pub struct StateView<D> {
    pub stage: Stage<D>,
    /// The record timestamp at which the last reload check was made.
    pub last_reload_check_sec: u32,
    /// The timestamp of the record that is being handled.
    pub record_time: u32,
}

/// The state of one filter instance. It is created once and lives as long as
/// the hosting process.
pub struct FilterState<D> {
    stage: Stage<D>,
    last_reload_check_sec: u32,
    record_time: u32,
}

/// Whether a reload check is due for a record stamped `now`: checks are
/// switched on, and `interval` seconds of record time have passed since the
/// last one. The boundary counts: a check is due on reaching it.
pub open spec fn reload_due(interval: u64, last_check: u32, now: u32) -> bool {
    interval != 0 && now >= last_check + interval
}

impl<D> Stage<D> {
    /// Whether initialisation has begun.
    pub open spec fn initialized(self) -> bool {
        !(self is Fresh)
    }

    /// The engine of a usable filter.
    pub open spec fn engine(self) -> Option<Engine<D>> {
        match self {
            Stage::Ready(engine) => Some(engine),
            Stage::AwaitingStat(engine) => Some(engine),
            Stage::AwaitingReload(engine) => Some(engine),
            _ => None,
        }
    }

    /// The stage with whatever was pending given up: an initialisation that
    /// was under way has failed, a reload check that was under way is
    /// dropped.
    pub open spec fn settled(self) -> Stage<D> {
        match self {
            Stage::AwaitingConfig => Stage::Inert,
            Stage::AwaitingDatabase(_) => Stage::Inert,
            Stage::AwaitingStat(engine) => Stage::Ready(engine),
            Stage::AwaitingReload(engine) => Stage::Ready(engine),
            other => other,
        }
    }
}

impl Step {
    /// The answer that asks for nothing and reports nothing.
    pub open spec fn proceed() -> Step {
        Step { action: Action::Process, notice: None }
    }
}

impl<D> StateView<D> {
    /// Whether initialisation has begun.
    pub open spec fn initialized(self) -> bool {
        self.stage.initialized()
    }

    /// The configuration of a usable filter.
    pub open spec fn config(self) -> Option<Config> {
        match self.stage.engine() {
            Some(engine) => Some(engine.config),
            None => None,
        }
    }

    /// The database of a usable filter.
    pub open spec fn database(self) -> Option<D> {
        match self.stage.engine() {
            Some(engine) => Some(engine.database),
            None => None,
        }
    }

    /// The extractor of a usable filter.
    pub open spec fn extractor(self) -> Option<Extractor> {
        match self.stage.engine() {
            Some(engine) => Some(engine.extractor),
            None => None,
        }
    }

    /// The database file's modification time as it was last seen.
    pub open spec fn database_mtime(self) -> Option<FileStamp> {
        match self.stage.engine() {
            Some(engine) => engine.database_mtime,
            None => None,
        }
    }

    /// Whether the filter can enrich records.
    pub open spec fn usable(self) -> bool {
        self.stage.engine() is Some
    }

    /// The reload check for a record stamped `now`, on a usable filter with
    /// nothing pending: where a check is due, `now` becomes the time of the
    /// last check and the file's modification time is asked for.
    pub open spec fn check_reload(self, engine: Engine<D>, now: u32) -> (StateView<D>, Action) {
        if reload_due(engine.config.reload_interval_secs, self.last_reload_check_sec, now) {
            (
                StateView {
                    stage: Stage::AwaitingStat(engine),
                    last_reload_check_sec: now,
                    record_time: self.record_time,
                },
                Action::StatDatabase(engine.config.database),
            )
        } else {
            (
                StateView {
                    stage: Stage::Ready(engine),
                    last_reload_check_sec: self.last_reload_check_sec,
                    record_time: self.record_time,
                },
                Action::Process,
            )
        }
    }

    /// This state with another stage.
    pub open spec fn at(self, stage: Stage<D>) -> StateView<D> {
        StateView {
            stage,
            last_reload_check_sec: self.last_reload_check_sec,
            record_time: self.record_time,
        }
    }

    /// A record stamped `now` arrives. Whatever was still pending is given
    /// up. A fresh filter begins its initialisation, which happens once; an
    /// inert one has nothing to do; a usable one makes its reload check.
    pub open spec fn on_record(self, now: u32) -> (StateView<D>, Step) {
        let current = StateView {
            stage: self.stage.settled(),
            last_reload_check_sec: self.last_reload_check_sec,
            record_time: now,
        };
        match current.stage {
            Stage::Fresh => (
                current.at(Stage::AwaitingConfig),
                Step { action: Action::ReadConfig, notice: None },
            ),
            Stage::Ready(engine) => {
                let (checked, action) = current.check_reload(engine, now);
                (checked, Step { action, notice: None })
            },
            _ => (current, Step::proceed()),
        }
    }

    /// While the configuration is awaited: the extractor was built from the
    /// toggles of `config`, or could not be. If it could not, the filter is
    /// inert for good. Otherwise the two are set aside and the database file
    /// is asked for. At any other stage nothing changes.
    pub open spec fn on_extractor(
        self,
        config: Config,
        built: Result<Extractor, ExtractorError>,
    ) -> (StateView<D>, Step) {
        if self.stage is AwaitingConfig {
            match built {
                Err(_) => (
                    self.at(Stage::Inert),
                    Step { action: Action::Process, notice: Some(Notice::ExtractorBuildFailed) },
                ),
                Ok(extractor) => (
                    self.at(Stage::AwaitingDatabase(Staged { config, extractor })),
                    Step { action: Action::ReadDatabase(config.database), notice: None },
                ),
            }
        } else {
            (self, Step::proceed())
        }
    }

    /// The configuration document was read, or not. Without one the filter
    /// is inert for good. With one the extractor is built from its eight
    /// toggles, and the machine goes on as `on_extractor` says.
    pub open spec fn on_config(self, config: Option<Config>) -> (StateView<D>, Step) {
        if self.stage is AwaitingConfig {
            match config {
                None => (
                    self.at(Stage::Inert),
                    Step { action: Action::Process, notice: Some(Notice::ConfigMissing) },
                ),
                Some(config) => self.on_extractor(
                    config,
                    built_extractor(config.spec_toggles()),
                ),
            }
        } else {
            (self, Step::proceed())
        }
    }

    /// The database file was read and parsed, or not.
    ///
    /// During initialisation, a failure leaves the filter inert for good. On
    /// success the configuration, the extractor and the database are
    /// committed together, and the record that started the initialisation
    /// gets its reload check.
    ///
    /// During a reload, a failure leaves the engine as it was; on success
    /// the database and its modification time are replaced, and nothing
    /// else.
    pub open spec fn on_database(self, loaded: Option<Loaded<D>>) -> (StateView<D>, Step) {
        match self.stage {
            Stage::AwaitingDatabase(staged) => match loaded {
                None => (self.at(Stage::Inert), Step::proceed()),
                Some(loaded) => {
                    let engine = Engine {
                        config: staged.config,
                        database: loaded.database,
                        extractor: staged.extractor,
                        database_mtime: loaded.modified,
                    };
                    let (checked, action) = self.check_reload(engine, self.record_time);
                    let notice = if staged.config.reload_interval_secs != 0 {
                        Some(Notice::AutoReloadEnabled(staged.config.reload_interval_secs))
                    } else {
                        None
                    };
                    (checked, Step { action, notice })
                },
            },
            Stage::AwaitingReload(engine) => match loaded {
                None => (self.at(Stage::Ready(engine)), Step::proceed()),
                Some(loaded) => (
                    self.at(
                        Stage::Ready(
                            Engine {
                                config: engine.config,
                                database: loaded.database,
                                extractor: engine.extractor,
                                database_mtime: loaded.modified,
                            },
                        ),
                    ),
                    Step::proceed(),
                ),
            },
            _ => (self, Step::proceed()),
        }
    }

    /// The database file's modification time was read, or not. If it could
    /// not be read, or is the one seen at the last load, the check is over.
    /// Otherwise the file is asked for again.
    pub open spec fn on_stat(self, modified: Option<FileStamp>) -> (StateView<D>, Step) {
        match self.stage {
            Stage::AwaitingStat(engine) => match modified {
                Some(stamp) if engine.database_mtime != Some(stamp) => (
                    self.at(Stage::AwaitingReload(engine)),
                    Step {
                        action: Action::ReadDatabase(engine.config.database),
                        notice: Some(Notice::DatabaseChanged),
                    },
                ),
                _ => (self.at(Stage::Ready(engine)), Step::proceed()),
            },
            _ => (self, Step::proceed()),
        }
    }

    /// The state and the answer that follow `event`. An event that the
    /// machine is not waiting for changes nothing.
    pub open spec fn next(self, event: Event<D>) -> (StateView<D>, Step) {
        match event {
            Event::Record(now) => self.on_record(now),
            Event::Config(config) => self.on_config(config),
            Event::Database(loaded) => self.on_database(loaded),
            Event::Stat(modified) => self.on_stat(modified),
        }
    }
}

/// Whether `seen`, the modification time kept from the last load, is `stamp`.
fn same_stamp(seen: &Option<FileStamp>, stamp: &FileStamp) -> (same: bool)
    ensures
        same == (*seen == Some(*stamp)),
{
    match seen {
        Some(kept) => kept.before_epoch == stamp.before_epoch && kept.secs == stamp.secs
            && kept.nanos == stamp.nanos,
        None => false,
    }
}

/// Decides whether a reload check is due for a record stamped `now`.
pub fn is_reload_due(interval: u64, last_check: u32, now: u32) -> (due: bool)
    ensures
        due == reload_due(interval, last_check, now),
{
    let now_wide: u64 = now as u64;
    let last_wide: u64 = last_check as u64;
    interval != 0 && interval <= now_wide && last_wide <= now_wide - interval
}

impl<D> View for FilterState<D> {
    type V = StateView<D>;

    closed spec fn view(&self) -> StateView<D> {
        StateView {
            stage: self.stage,
            last_reload_check_sec: self.last_reload_check_sec,
            record_time: self.record_time,
        }
    }
}

impl<D> FilterState<D> {
    /// A fresh state: not initialised, no handles, no check made yet.
    pub fn new() -> (state: FilterState<D>)
        ensures
            state@ == (StateView::<D> {
                stage: Stage::Fresh,
                last_reload_check_sec: 0,
                record_time: 0,
            }),
    {
        FilterState { stage: Stage::Fresh, last_reload_check_sec: 0, record_time: 0 }
    }

    /// Whether initialisation has begun. Once true, it stays true.
    pub fn is_initialized(&self) -> (initialized: bool)
        ensures
            initialized == self@.initialized(),
    {
        match &self.stage {
            Stage::Fresh => false,
            _ => true,
        }
    }

    /// The engine of a usable filter.
    pub fn engine(&self) -> (engine: Option<&Engine<D>>)
        ensures
            match engine {
                Some(engine) => self@.stage.engine() == Some(*engine),
                None => self@.stage.engine() is None,
            },
    {
        match &self.stage {
            Stage::Ready(engine) => Some(engine),
            Stage::AwaitingStat(engine) => Some(engine),
            Stage::AwaitingReload(engine) => Some(engine),
            _ => None,
        }
    }

    /// Whether the filter can enrich records.
    pub fn is_usable(&self) -> (usable: bool)
        ensures
            usable == self@.usable(),
    {
        self.engine().is_some()
    }

    /// The configuration of a usable filter.
    pub fn config(&self) -> (config: Option<&Config>)
        ensures
            match config {
                Some(config) => self@.config() == Some(*config),
                None => self@.config() is None,
            },
    {
        match self.engine() {
            Some(engine) => Some(&engine.config),
            None => None,
        }
    }

    /// The database of a usable filter.
    pub fn database(&self) -> (database: Option<&D>)
        ensures
            match database {
                Some(database) => self@.database() == Some(*database),
                None => self@.database() is None,
            },
    {
        match self.engine() {
            Some(engine) => Some(&engine.database),
            None => None,
        }
    }

    /// The database file's modification time as it was last seen.
    pub fn database_mtime(&self) -> (modified: Option<FileStamp>)
        ensures
            modified == self@.database_mtime(),
    {
        match self.engine() {
            Some(engine) => engine.database_mtime,
            None => None,
        }
    }

    /// The record timestamp at which the last reload check was made.
    pub fn last_reload_check_second(&self) -> (second: u32)
        ensures
            second == self@.last_reload_check_sec,
    {
        self.last_reload_check_sec
    }

    /// Makes the reload check for a record stamped `now`.
    fn check_reload(self, engine: Engine<D>, now: u32) -> (next: (FilterState<D>, Action))
        ensures
            (next.0@, next.1) == self@.check_reload(engine, now),
    {
        if is_reload_due(engine.config.reload_interval_secs, self.last_reload_check_sec, now) {
            let path = engine.config.database.clone();
            (
                FilterState {
                    stage: Stage::AwaitingStat(engine),
                    last_reload_check_sec: now,
                    record_time: self.record_time,
                },
                Action::StatDatabase(path),
            )
        } else {
            (
                FilterState {
                    stage: Stage::Ready(engine),
                    last_reload_check_sec: self.last_reload_check_sec,
                    record_time: self.record_time,
                },
                Action::Process,
            )
        }
    }

    /// Handles the arrival of a record.
    fn record_arrived(self, now: u32) -> (next: (FilterState<D>, Step))
        ensures
            (next.0@, next.1) == self@.on_record(now),
    {
        let last_reload_check_sec = self.last_reload_check_sec;
        match self.stage {
            Stage::Fresh => (
                FilterState { stage: Stage::AwaitingConfig, last_reload_check_sec, record_time: now },
                Step { action: Action::ReadConfig, notice: None },
            ),
            Stage::Ready(engine) | Stage::AwaitingStat(engine) | Stage::AwaitingReload(engine) => {
                let current = FilterState {
                    stage: Stage::Inert,
                    last_reload_check_sec,
                    record_time: now,
                };
                let (checked, action) = current.check_reload(engine, now);
                (checked, Step { action, notice: None })
            },
            _ => (
                FilterState { stage: Stage::Inert, last_reload_check_sec, record_time: now },
                Step { action: Action::Process, notice: None },
            ),
        }
    }

    /// Goes on from a configuration and the outcome of building its
    /// extractor. This is the second half of what `Event::Config` does; on
    /// its own it serves callers that build the extractor themselves.
    pub fn with_extractor(
        self,
        config: Config,
        built: Result<Extractor, ExtractorError>,
    ) -> (next: (FilterState<D>, Step))
        ensures
            (next.0@, next.1) == self@.on_extractor(config, built),
    {
        let last_reload_check_sec = self.last_reload_check_sec;
        let record_time = self.record_time;
        match self.stage {
            Stage::AwaitingConfig => match built {
                Err(_) => (
                    FilterState { stage: Stage::Inert, last_reload_check_sec, record_time },
                    Step {
                        action: Action::Process,
                        notice: Some(Notice::ExtractorBuildFailed),
                    },
                ),
                Ok(extractor) => {
                    let path = config.database.clone();
                    (
                        FilterState {
                            stage: Stage::AwaitingDatabase(Staged { config, extractor }),
                            last_reload_check_sec,
                            record_time,
                        },
                        Step { action: Action::ReadDatabase(path), notice: None },
                    )
                },
            },
            stage => (
                FilterState { stage, last_reload_check_sec, record_time },
                Step { action: Action::Process, notice: None },
            ),
        }
    }

    /// Handles the outcome of reading the configuration document.
    fn config_read(self, config: Option<Config>) -> (next: (FilterState<D>, Step))
        ensures
            (next.0@, next.1) == self@.on_config(config),
    {
        let last_reload_check_sec = self.last_reload_check_sec;
        let record_time = self.record_time;
        match self.stage {
            Stage::AwaitingConfig => match config {
                None => (
                    FilterState { stage: Stage::Inert, last_reload_check_sec, record_time },
                    Step { action: Action::Process, notice: Some(Notice::ConfigMissing) },
                ),
                Some(config) => {
                    let toggles = config.toggles();
                    let built = build_extractor(&toggles);
                    let waiting = FilterState {
                        stage: Stage::AwaitingConfig,
                        last_reload_check_sec,
                        record_time,
                    };
                    waiting.with_extractor(config, built)
                },
            },
            stage => (
                FilterState { stage, last_reload_check_sec, record_time },
                Step { action: Action::Process, notice: None },
            ),
        }
    }

    /// Handles the outcome of reading the database file.
    fn database_read(self, loaded: Option<Loaded<D>>) -> (next: (FilterState<D>, Step))
        ensures
            (next.0@, next.1) == self@.on_database(loaded),
    {
        let last_reload_check_sec = self.last_reload_check_sec;
        let record_time = self.record_time;
        match self.stage {
            Stage::AwaitingDatabase(staged) => match loaded {
                None => (
                    FilterState { stage: Stage::Inert, last_reload_check_sec, record_time },
                    Step { action: Action::Process, notice: None },
                ),
                Some(loaded) => {
                    let interval = staged.config.reload_interval_secs;
                    let engine = Engine {
                        config: staged.config,
                        database: loaded.database,
                        extractor: staged.extractor,
                        database_mtime: loaded.modified,
                    };
                    let current = FilterState {
                        stage: Stage::Inert,
                        last_reload_check_sec,
                        record_time,
                    };
                    let (checked, action) = current.check_reload(engine, record_time);
                    let notice = if interval != 0 {
                        Some(Notice::AutoReloadEnabled(interval))
                    } else {
                        None
                    };
                    (checked, Step { action, notice })
                },
            },
            Stage::AwaitingReload(engine) => {
                let engine = match loaded {
                    None => engine,
                    Some(loaded) => Engine {
                        config: engine.config,
                        database: loaded.database,
                        extractor: engine.extractor,
                        database_mtime: loaded.modified,
                    },
                };
                (
                    FilterState { stage: Stage::Ready(engine), last_reload_check_sec, record_time },
                    Step { action: Action::Process, notice: None },
                )
            },
            stage => (
                FilterState { stage, last_reload_check_sec, record_time },
                Step { action: Action::Process, notice: None },
            ),
        }
    }

    /// Handles the outcome of reading the database file's modification time.
    fn stat_read(self, modified: Option<FileStamp>) -> (next: (FilterState<D>, Step))
        ensures
            (next.0@, next.1) == self@.on_stat(modified),
    {
        let last_reload_check_sec = self.last_reload_check_sec;
        let record_time = self.record_time;
        match self.stage {
            Stage::AwaitingStat(engine) => {
                let changed = match &modified {
                    Some(stamp) => !same_stamp(&engine.database_mtime, stamp),
                    None => false,
                };
                if changed {
                    let path = engine.config.database.clone();
                    (
                        FilterState {
                            stage: Stage::AwaitingReload(engine),
                            last_reload_check_sec,
                            record_time,
                        },
                        Step {
                            action: Action::ReadDatabase(path),
                            notice: Some(Notice::DatabaseChanged),
                        },
                    )
                } else {
                    (
                        FilterState {
                            stage: Stage::Ready(engine),
                            last_reload_check_sec,
                            record_time,
                        },
                        Step { action: Action::Process, notice: None },
                    )
                }
            },
            stage => (
                FilterState { stage, last_reload_check_sec, record_time },
                Step { action: Action::Process, notice: None },
            ),
        }
    }

    /// The state that follows `event`, and the machine's answer to it.
    pub fn advance(self, event: Event<D>) -> (next: (FilterState<D>, Step))
        ensures
            (next.0@, next.1) == self@.next(event),
    {
        match event {
            Event::Record(now) => self.record_arrived(now),
            Event::Config(config) => self.config_read(config),
            Event::Database(loaded) => self.database_read(loaded),
            Event::Stat(modified) => self.stat_read(modified),
        }
    }

    /// Moves the state on by `event` and answers with what the caller has to
    /// do next.
    pub fn step(&mut self, event: Event<D>) -> (step: Step)
        ensures
            (final(self)@, step) == old(self)@.next(event),
    {
        let mut current = FilterState::new();
        core::mem::swap(self, &mut current);
        let (next, step) = current.advance(event);
        *self = next;
        step
    }
}

} // verus!
