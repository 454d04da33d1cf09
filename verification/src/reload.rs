//! Reloading as a machine. The caller looks for the configuration file and
//! runs the proxy; the machine is told what happened and says what is to be
//! done next.

use vstd::prelude::*;
use crate::paths::{main_caddyfile_of, Environment};

verus! {

/// Where a reload stands.
#[derive(Clone, Copy, Debug, PartialEq, Eq)]
pub enum ReloadPhase {
    /// It is being found out whether the configuration file exists.
    CheckingConfig,
    /// The proxy is running its reload.
    Running,
    /// Nothing is left to do.
    Done,
}

/// How a reload ended.
#[derive(Clone, Copy, Debug, PartialEq, Eq)]
pub enum ReloadOutcome {
    /// The proxy reloaded its configuration.
    Reloaded,
    /// There is no configuration file yet; initialization comes first.
    MissingConfig,
    /// The proxy could not be started.
    NotStarted,
    /// The proxy ended with this exit status, which is not 0, or with none.
    Failed(Option<i32>),
    /// The machine was told of something that it had not asked for.
    OutOfTurn,
}

/// What the caller reports to the machine.
#[derive(Clone, Copy, Debug, PartialEq, Eq)]
pub enum ReloadEvent {
    /// Whether the configuration file exists.
    Exists(bool),
    /// The proxy ended, with this exit status if it had one.
    Exited(Option<i32>),
    /// The proxy could not be started.
    SpawnFailed,
}

/// What the machine asks the caller to do.
#[derive(Debug, PartialEq, Eq)]
pub enum ReloadAction<T, L> {
    /// Find out whether this file exists.
    CheckExists(T),
    /// Run this command, the program first and then its arguments, and wait
    /// for it to end.
    Run(L),
    /// Stop.
    Finish(ReloadOutcome),
}

impl View for ReloadAction<String, Vec<String>> {
    type V = ReloadAction<Seq<char>, Seq<Seq<char>>>;

    open spec fn view(&self) -> ReloadAction<Seq<char>, Seq<Seq<char>>> {
        match *self {
            ReloadAction::CheckExists(path) => ReloadAction::CheckExists(path@),
            ReloadAction::Run(command) => ReloadAction::Run(command.deep_view()),
            ReloadAction::Finish(outcome) => ReloadAction::Finish(outcome),
        }
    }
}

/// The state of a reload.
#[derive(Debug, PartialEq, Eq)]
pub struct ReloadMachine {
    /// Where the reload stands.
    pub phase: ReloadPhase,
    /// The configuration file.
    pub config_file: String,
}

/// The state of a reload, as plain values.
pub struct ReloadModel {
    pub phase: ReloadPhase,
    pub config_file: Seq<char>,
}

impl View for ReloadMachine {
    type V = ReloadModel;

    open spec fn view(&self) -> ReloadModel {
        ReloadModel { phase: self.phase, config_file: self.config_file@ }
    }
}

/// The exit status of the process for each outcome: 0 where the proxy
/// reloaded, 1 otherwise.
pub open spec fn reload_exit_code(outcome: ReloadOutcome) -> int {
    match outcome {
        ReloadOutcome::Reloaded => 0,
        _ => 1,
    }
}

/// The command that reloads the proxy with `config_file`.
pub open spec fn reload_command(config_file: Seq<char>) -> Seq<Seq<char>> {
    seq!["caddy"@, "reload"@, "--config"@, config_file]
}

/// The beginning of a reload: the configuration file is looked for.
pub open spec fn reload_begin(home: Option<Seq<char>>, platform: Option<Seq<char>>) -> (
    ReloadModel,
    ReloadAction<Seq<char>, Seq<Seq<char>>>,
) {
    let file = main_caddyfile_of(home, platform);
    (
        ReloadModel { phase: ReloadPhase::CheckingConfig, config_file: file },
        ReloadAction::CheckExists(file),
    )
}

/// The end of a reload with `outcome`.
pub open spec fn reload_stop(m: ReloadModel, outcome: ReloadOutcome) -> (
    ReloadModel,
    ReloadAction<Seq<char>, Seq<Seq<char>>>,
) {
    (ReloadModel { phase: ReloadPhase::Done, ..m }, ReloadAction::Finish(outcome))
}

/// The step of a reload: the state after `event`, and what is to be done
/// next.
///
/// Without a configuration file the run ends and the proxy is not started.
/// With one, the proxy is run; the reload succeeded if its exit status is
/// 0, and failed if it is another or if there is none.
pub open spec fn reload_next(m: ReloadModel, event: ReloadEvent) -> (
    ReloadModel,
    ReloadAction<Seq<char>, Seq<Seq<char>>>,
) {
    match m.phase {
        ReloadPhase::CheckingConfig => match event {
            ReloadEvent::Exists(true) => (
                ReloadModel { phase: ReloadPhase::Running, ..m },
                ReloadAction::Run(reload_command(m.config_file)),
            ),
            ReloadEvent::Exists(false) => reload_stop(m, ReloadOutcome::MissingConfig),
            _ => reload_stop(m, ReloadOutcome::OutOfTurn),
        },
        ReloadPhase::Running => match event {
            ReloadEvent::Exited(Some(0)) => reload_stop(m, ReloadOutcome::Reloaded),
            ReloadEvent::Exited(status) => reload_stop(m, ReloadOutcome::Failed(status)),
            ReloadEvent::SpawnFailed => reload_stop(m, ReloadOutcome::NotStarted),
            _ => reload_stop(m, ReloadOutcome::OutOfTurn),
        },
        ReloadPhase::Done => reload_stop(m, ReloadOutcome::OutOfTurn),
    }
}

/// What the machine asks for, step by step, when it is told of `events` one
/// after another, beginning in the state `m`.
pub open spec fn reload_actions(m: ReloadModel, events: Seq<ReloadEvent>) -> Seq<
    ReloadAction<Seq<char>, Seq<Seq<char>>>,
>
    decreases events.len(),
{
    if events.len() == 0 {
        Seq::empty()
    } else {
        let step = reload_next(m, events[0]);
        seq![step.1] + reload_actions(step.0, events.drop_first())
    }
}

/// Whether none of `actions` runs a command.
pub open spec fn runs_nothing(actions: Seq<ReloadAction<Seq<char>, Seq<Seq<char>>>>) -> bool {
    forall|i: int| 0 <= i < actions.len() ==> !(#[trigger] actions[i] is Run)
}

/// Each event is answered by one action.
pub proof fn lemma_reload_actions_len(m: ReloadModel, events: Seq<ReloadEvent>)
    ensures
        reload_actions(m, events).len() == events.len(),
    decreases events.len(),
{
    if events.len() > 0 {
        lemma_reload_actions_len(reload_next(m, events[0]).0, events.drop_first());
    }
}

/// Once a run has ended, whatever the machine is told, it runs nothing.
pub proof fn lemma_done_runs_nothing(m: ReloadModel, events: Seq<ReloadEvent>)
    requires
        m.phase == ReloadPhase::Done,
    ensures
        runs_nothing(reload_actions(m, events)),
    decreases events.len(),
{
    if events.len() > 0 {
        let step = reload_next(m, events[0]);
        let rest = events.drop_first();
        lemma_done_runs_nothing(step.0, rest);
        lemma_reload_actions_len(step.0, rest);
        let later = reload_actions(step.0, rest);
        assert forall|i: int| 0 <= i < reload_actions(m, events).len() implies !(
        #[trigger] reload_actions(m, events)[i] is Run) by {
            if i > 0 {
                assert(reload_actions(m, events)[i] == later[i - 1]);
            }
        }
    }
}

/// A reload without a configuration file ends at once, with exit status 1,
/// and the proxy is not run then or later.
pub proof fn lemma_missing_config_runs_nothing(m: ReloadModel, events: Seq<ReloadEvent>)
    requires
        m.phase == ReloadPhase::CheckingConfig,
    ensures
        reload_next(m, ReloadEvent::Exists(false)) == reload_stop(m, ReloadOutcome::MissingConfig),
        reload_exit_code(ReloadOutcome::MissingConfig) == 1,
        runs_nothing(reload_actions(m, seq![ReloadEvent::Exists(false)] + events)),
{
    let all = seq![ReloadEvent::Exists(false)] + events;
    let step = reload_next(m, all[0]);
    assert(all.drop_first() =~= events);
    lemma_done_runs_nothing(step.0, events);
    lemma_reload_actions_len(step.0, events);
    let later = reload_actions(step.0, events);
    assert forall|i: int| 0 <= i < reload_actions(m, all).len() implies !(
    #[trigger] reload_actions(m, all)[i] is Run) by {
        if i > 0 {
            assert(reload_actions(m, all)[i] == later[i - 1]);
        }
    }
}

/// The exit status of the process for `outcome`.
pub fn exit_code(outcome: ReloadOutcome) -> (code: i32)
    ensures
        code == reload_exit_code(outcome),
{
    match outcome {
        ReloadOutcome::Reloaded => 0,
        _ => 1,
    }
}

impl ReloadMachine {
    /// Begins a reload: the machine, and the request to look for the
    /// configuration file.
    pub fn start(env: &Environment) -> (out: (ReloadMachine, ReloadAction<String, Vec<String>>))
        ensures
            (out.0@, out.1@) == reload_begin(
                env.home.deep_view(),
                env.platform_config.deep_view(),
            ),
    {
        let file = env.main_caddyfile_path();
        let first = ReloadAction::CheckExists(file.clone());
        (ReloadMachine { phase: ReloadPhase::CheckingConfig, config_file: file }, first)
    }

    /// Ends the run with `outcome`.
    fn stop(&mut self, outcome: ReloadOutcome) -> (action: ReloadAction<String, Vec<String>>)
        ensures
            (final(self)@, action@) == reload_stop(old(self)@, outcome),
    {
        self.phase = ReloadPhase::Done;
        ReloadAction::Finish(outcome)
    }

    /// Takes `event` and says what is to be done next.
    pub fn step(&mut self, event: ReloadEvent) -> (action: ReloadAction<String, Vec<String>>)
        ensures
            (final(self)@, action@) == reload_next(old(self)@, event),
    {
        match self.phase {
            ReloadPhase::CheckingConfig => match event {
                ReloadEvent::Exists(true) => {
                    let mut command: Vec<String> = Vec::new();
                    command.push(String::from_str("caddy"));
                    command.push(String::from_str("reload"));
                    command.push(String::from_str("--config"));
                    command.push(self.config_file.clone());
                    assert(command.deep_view() =~= reload_command(self.config_file@));
                    self.phase = ReloadPhase::Running;
                    ReloadAction::Run(command)
                },
                ReloadEvent::Exists(false) => self.stop(ReloadOutcome::MissingConfig),
                _ => self.stop(ReloadOutcome::OutOfTurn),
            },
            ReloadPhase::Running => match event {
                ReloadEvent::Exited(Some(0)) => self.stop(ReloadOutcome::Reloaded),
                ReloadEvent::Exited(status) => self.stop(ReloadOutcome::Failed(status)),
                ReloadEvent::SpawnFailed => self.stop(ReloadOutcome::NotStarted),
                _ => self.stop(ReloadOutcome::OutOfTurn),
            },
            ReloadPhase::Done => self.stop(ReloadOutcome::OutOfTurn),
        }
    }
}

} // verus!
