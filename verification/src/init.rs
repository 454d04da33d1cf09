//! Initialization as a machine. The caller creates the directory, asks the
//! user and writes the file; the machine is told what happened and says what
//! is to be done next.

use vstd::prelude::*;
use crate::imports::{import_config, render_import_config};
use crate::paths::{
    config_dir_of,
    expand_home,
    home_expanded,
    main_caddyfile_of,
    Environment,
};
use crate::text::{is_blank, is_blank_text};

verus! {

/// Where an initialization stands.
#[derive(Clone, Copy, Debug, PartialEq, Eq)]
pub enum InitPhase {
    /// The configuration directory is being created.
    CreatingDir,
    /// It is being found out whether the configuration file exists.
    CheckingExisting,
    /// The user is being asked whether the existing file may be replaced.
    Confirming,
    /// The user is being asked for folders.
    Collecting,
    /// The configuration file is being written.
    Writing,
    /// Nothing is left to do.
    Done,
}

/// How an initialization ended.
#[derive(Clone, Copy, Debug, PartialEq, Eq)]
pub enum InitOutcome {
    /// The configuration was written.
    Saved,
    /// The user kept the existing configuration.
    KeptExisting,
    /// The user named no folder, so nothing was written.
    NothingSaved,
    /// The configuration directory could not be created.
    DirError,
    /// The answer of the user could not be read.
    InputError,
    /// The configuration file could not be written.
    WriteError,
    /// The machine was told of something that it had not asked for.
    OutOfTurn,
}

/// What the caller reports to the machine.
#[derive(Debug, PartialEq, Eq)]
pub enum InitEvent<T> {
    /// The configuration directory exists now.
    DirCreated,
    /// The configuration directory could not be created.
    DirFailed,
    /// Whether the configuration file exists.
    Exists(bool),
    /// Whether the user agreed to replace the existing file.
    Answered(bool),
    /// A line that the user entered.
    Line(T),
    /// Reading from the user failed.
    InputFailed,
    /// The configuration file was written.
    Written,
    /// The configuration file could not be written.
    WriteFailed,
}

/// What the machine asks the caller to do.
#[derive(Debug, PartialEq, Eq)]
pub enum InitAction<T> {
    /// Create this directory and what is missing above it.
    CreateDir(T),
    /// Find out whether this file exists.
    CheckExists(T),
    /// Ask whether this file, which exists, may be replaced; the answer is
    /// no unless the user says yes.
    ConfirmOverwrite(T),
    /// Ask for the next folder; so many have been collected.
    PromptFolder(usize),
    /// Write `content` to the file `path`, in place of what it held.
    WriteConfig { path: T, content: T },
    /// Stop.
    Finish(InitOutcome),
}

impl View for InitEvent<String> {
    type V = InitEvent<Seq<char>>;

    open spec fn view(&self) -> InitEvent<Seq<char>> {
        match *self {
            InitEvent::DirCreated => InitEvent::DirCreated,
            InitEvent::DirFailed => InitEvent::DirFailed,
            InitEvent::Exists(found) => InitEvent::Exists(found),
            InitEvent::Answered(yes) => InitEvent::Answered(yes),
            InitEvent::Line(line) => InitEvent::Line(line@),
            InitEvent::InputFailed => InitEvent::InputFailed,
            InitEvent::Written => InitEvent::Written,
            InitEvent::WriteFailed => InitEvent::WriteFailed,
        }
    }
}

impl View for InitAction<String> {
    type V = InitAction<Seq<char>>;

    open spec fn view(&self) -> InitAction<Seq<char>> {
        match *self {
            InitAction::CreateDir(path) => InitAction::CreateDir(path@),
            InitAction::CheckExists(path) => InitAction::CheckExists(path@),
            InitAction::ConfirmOverwrite(path) => InitAction::ConfirmOverwrite(path@),
            InitAction::PromptFolder(collected) => InitAction::PromptFolder(collected),
            InitAction::WriteConfig { path, content } => InitAction::WriteConfig {
                path: path@,
                content: content@,
            },
            InitAction::Finish(outcome) => InitAction::Finish(outcome),
        }
    }
}

/// The state of an initialization.
#[derive(Debug, PartialEq, Eq)]
pub struct InitMachine {
    /// Where the initialization stands.
    pub phase: InitPhase,
    /// The configuration file, known once the directory has been created.
    pub config_file: String,
    /// The folders collected so far, in the order in which they were given.
    pub folders: Vec<String>,
}

/// The state of an initialization, as plain values.
pub struct InitModel {
    pub phase: InitPhase,
    pub config_file: Seq<char>,
    pub folders: Seq<Seq<char>>,
}

impl View for InitMachine {
    type V = InitModel;

    open spec fn view(&self) -> InitModel {
        InitModel {
            phase: self.phase,
            config_file: self.config_file@,
            folders: self.folders.deep_view(),
        }
    }
}

/// The exit status of the process for each outcome: 0 where the
/// initialization went its way, 1 where it failed.
pub open spec fn init_exit_code(outcome: InitOutcome) -> int {
    match outcome {
        InitOutcome::Saved => 0,
        InitOutcome::KeptExisting => 0,
        InitOutcome::NothingSaved => 0,
        InitOutcome::DirError => 1,
        InitOutcome::InputError => 1,
        InitOutcome::WriteError => 1,
        InitOutcome::OutOfTurn => 1,
    }
}

/// The state in which an initialization begins: nothing collected, and the
/// request to create the configuration directory is out.
pub open spec fn init_begin() -> InitModel {
    InitModel { phase: InitPhase::CreatingDir, config_file: Seq::empty(), folders: Seq::empty() }
}

/// The end of an initialization with `outcome`.
pub open spec fn init_stop(m: InitModel, outcome: InitOutcome) -> (InitModel, InitAction<Seq<char>>) {
    (InitModel { phase: InitPhase::Done, ..m }, InitAction::Finish(outcome))
}

/// The step of an initialization: the state after `event`, and what is to
/// be done next.
///
/// The directory is created first. If the configuration file exists the
/// user is asked whether to replace it, and a no ends the run with the file
/// untouched. Then folders are collected, each with a leading `~` expanded,
/// until a blank line comes. With no folder the run ends and nothing is
/// written; otherwise the configuration for the folders is written to the
/// file. An event that the state did not ask for ends the run.
pub open spec fn init_next(
    m: InitModel,
    event: InitEvent<Seq<char>>,
    home: Option<Seq<char>>,
    platform: Option<Seq<char>>,
) -> (InitModel, InitAction<Seq<char>>) {
    match m.phase {
        InitPhase::CreatingDir => match event {
            InitEvent::DirCreated => {
                let file = main_caddyfile_of(home, platform);
                (
                    InitModel { phase: InitPhase::CheckingExisting, config_file: file, ..m },
                    InitAction::CheckExists(file),
                )
            },
            InitEvent::DirFailed => init_stop(m, InitOutcome::DirError),
            _ => init_stop(m, InitOutcome::OutOfTurn),
        },
        InitPhase::CheckingExisting => match event {
            InitEvent::Exists(true) => (
                InitModel { phase: InitPhase::Confirming, ..m },
                InitAction::ConfirmOverwrite(m.config_file),
            ),
            InitEvent::Exists(false) => (
                InitModel { phase: InitPhase::Collecting, ..m },
                InitAction::PromptFolder(m.folders.len() as usize),
            ),
            _ => init_stop(m, InitOutcome::OutOfTurn),
        },
        InitPhase::Confirming => match event {
            InitEvent::Answered(true) => (
                InitModel { phase: InitPhase::Collecting, ..m },
                InitAction::PromptFolder(m.folders.len() as usize),
            ),
            InitEvent::Answered(false) => init_stop(m, InitOutcome::KeptExisting),
            InitEvent::InputFailed => init_stop(m, InitOutcome::InputError),
            _ => init_stop(m, InitOutcome::OutOfTurn),
        },
        InitPhase::Collecting => match event {
            InitEvent::Line(line) => if !is_blank_text(line) {
                let folders = m.folders.push(home_expanded(line, home));
                (InitModel { folders, ..m }, InitAction::PromptFolder(folders.len() as usize))
            } else if m.folders.len() == 0 {
                init_stop(m, InitOutcome::NothingSaved)
            } else {
                (
                    InitModel { phase: InitPhase::Writing, ..m },
                    InitAction::WriteConfig {
                        path: m.config_file,
                        content: import_config(m.folders),
                    },
                )
            },
            InitEvent::InputFailed => init_stop(m, InitOutcome::InputError),
            _ => init_stop(m, InitOutcome::OutOfTurn),
        },
        InitPhase::Writing => match event {
            InitEvent::Written => init_stop(m, InitOutcome::Saved),
            InitEvent::WriteFailed => init_stop(m, InitOutcome::WriteError),
            _ => init_stop(m, InitOutcome::OutOfTurn),
        },
        InitPhase::Done => init_stop(m, InitOutcome::OutOfTurn),
    }
}

/// The exit status of the process for `outcome`.
pub fn exit_code(outcome: InitOutcome) -> (code: i32)
    ensures
        code == init_exit_code(outcome),
{
    match outcome {
        InitOutcome::Saved => 0,
        InitOutcome::KeptExisting => 0,
        InitOutcome::NothingSaved => 0,
        _ => 1,
    }
}

impl InitMachine {
    /// Begins an initialization: the machine, and the request to create
    /// the configuration directory.
    pub fn start(env: &Environment) -> (out: (InitMachine, InitAction<String>))
        ensures
            out.0@ == init_begin(),
            out.1@ == InitAction::CreateDir(
                config_dir_of(env.home.deep_view(), env.platform_config.deep_view()),
            ),
    {
        let machine = InitMachine {
            phase: InitPhase::CreatingDir,
            config_file: String::new(),
            folders: Vec::new(),
        };
        assert(machine.folders.deep_view() =~= Seq::<Seq<char>>::empty());
        (machine, InitAction::CreateDir(env.config_dir()))
    }

    /// Ends the run with `outcome`.
    fn stop(&mut self, outcome: InitOutcome) -> (action: InitAction<String>)
        ensures
            (final(self)@, action@) == init_stop(old(self)@, outcome),
    {
        self.phase = InitPhase::Done;
        InitAction::Finish(outcome)
    }

    /// Takes `event` and says what is to be done next.
    pub fn step(&mut self, event: InitEvent<String>, env: &Environment) -> (action: InitAction<
        String,
    >)
        ensures
            (final(self)@, action@) == init_next(
                old(self)@,
                event@,
                env.home.deep_view(),
                env.platform_config.deep_view(),
            ),
    {
        match self.phase {
            InitPhase::CreatingDir => match event {
                InitEvent::DirCreated => {
                    let file = env.main_caddyfile_path();
                    self.config_file = file.clone();
                    self.phase = InitPhase::CheckingExisting;
                    InitAction::CheckExists(file)
                },
                InitEvent::DirFailed => self.stop(InitOutcome::DirError),
                _ => self.stop(InitOutcome::OutOfTurn),
            },
            InitPhase::CheckingExisting => match event {
                InitEvent::Exists(true) => {
                    self.phase = InitPhase::Confirming;
                    InitAction::ConfirmOverwrite(self.config_file.clone())
                },
                InitEvent::Exists(false) => {
                    self.phase = InitPhase::Collecting;
                    InitAction::PromptFolder(self.folders.len())
                },
                _ => self.stop(InitOutcome::OutOfTurn),
            },
            InitPhase::Confirming => match event {
                InitEvent::Answered(true) => {
                    self.phase = InitPhase::Collecting;
                    InitAction::PromptFolder(self.folders.len())
                },
                InitEvent::Answered(false) => self.stop(InitOutcome::KeptExisting),
                InitEvent::InputFailed => self.stop(InitOutcome::InputError),
                _ => self.stop(InitOutcome::OutOfTurn),
            },
            InitPhase::Collecting => match event {
                InitEvent::Line(line) => {
                    if !is_blank(line.as_str()) {
                        let folder = expand_home(line.as_str(), &env.home);
                        let ghost before = self.folders.deep_view();
                        let ghost added = folder@;
                        self.folders.push(folder);
                        assert(self.folders.deep_view() =~= before.push(added));
                        InitAction::PromptFolder(self.folders.len())
                    } else if self.folders.len() == 0 {
                        self.stop(InitOutcome::NothingSaved)
                    } else {
                        self.phase = InitPhase::Writing;
                        InitAction::WriteConfig {
                            path: self.config_file.clone(),
                            content: render_import_config(&self.folders),
                        }
                    }
                },
                InitEvent::InputFailed => self.stop(InitOutcome::InputError),
                _ => self.stop(InitOutcome::OutOfTurn),
            },
            InitPhase::Writing => match event {
                InitEvent::Written => self.stop(InitOutcome::Saved),
                InitEvent::WriteFailed => self.stop(InitOutcome::WriteError),
                _ => self.stop(InitOutcome::OutOfTurn),
            },
            InitPhase::Done => self.stop(InitOutcome::OutOfTurn),
        }
    }
}

} // verus!
