//! Generation as a machine. The caller looks at the output directory, reads
//! the template and writes the result; the machine is told what happened and
//! says what is to be done next.

use vstd::prelude::*;
use crate::paths::{join_path, joined};
use crate::template::{render, rendered};
use crate::vars::{parse_variables, parsed_variables, VariableSet};

verus! {

/// Where a generation stands.
#[derive(Clone, Copy, Debug, PartialEq, Eq)]
pub enum GeneratePhase {
    /// It is being found out whether the output directory exists.
    CheckingDir,
    /// The template is being read.
    Reading,
    /// The rendered text is being written.
    Writing,
    /// Nothing is left to do.
    Done,
}

/// How a generation ended.
#[derive(Debug, PartialEq, Eq)]
pub enum GenerateOutcome<T> {
    /// The rendered text was written.
    Generated,
    /// An argument was not of the form `key=value`; the message says which.
    InvalidVariable(T),
    /// The output directory does not exist or is no directory.
    MissingOutputDir,
    /// The template could not be read.
    TemplateUnreadable,
    /// The output file could not be written.
    WriteError,
    /// The machine was told of something that it had not asked for.
    OutOfTurn,
}

/// What the caller reports to the machine.
#[derive(Debug, PartialEq, Eq)]
pub enum GenerateEvent<T> {
    /// Whether the output directory exists and is a directory.
    DirChecked(bool),
    /// The text of the template.
    TemplateRead(T),
    /// The template could not be read.
    ReadFailed,
    /// The output file was written.
    Written,
    /// The output file could not be written.
    WriteFailed,
}

/// What the machine asks the caller to do.
#[derive(Debug, PartialEq, Eq)]
pub enum GenerateAction<T> {
    /// Find out whether this path is a directory.
    CheckDir(T),
    /// Read this file as text.
    ReadTemplate(T),
    /// Write `content` to the file `path`, in place of what it held.
    WriteOutput { path: T, content: T },
    /// Stop.
    Finish(GenerateOutcome<T>),
}

impl View for GenerateOutcome<String> {
    type V = GenerateOutcome<Seq<char>>;

    open spec fn view(&self) -> GenerateOutcome<Seq<char>> {
        match *self {
            GenerateOutcome::Generated => GenerateOutcome::Generated,
            GenerateOutcome::InvalidVariable(message) => GenerateOutcome::InvalidVariable(
                message@,
            ),
            GenerateOutcome::MissingOutputDir => GenerateOutcome::MissingOutputDir,
            GenerateOutcome::TemplateUnreadable => GenerateOutcome::TemplateUnreadable,
            GenerateOutcome::WriteError => GenerateOutcome::WriteError,
            GenerateOutcome::OutOfTurn => GenerateOutcome::OutOfTurn,
        }
    }
}

impl View for GenerateEvent<String> {
    type V = GenerateEvent<Seq<char>>;

    open spec fn view(&self) -> GenerateEvent<Seq<char>> {
        match *self {
            GenerateEvent::DirChecked(found) => GenerateEvent::DirChecked(found),
            GenerateEvent::TemplateRead(text) => GenerateEvent::TemplateRead(text@),
            GenerateEvent::ReadFailed => GenerateEvent::ReadFailed,
            GenerateEvent::Written => GenerateEvent::Written,
            GenerateEvent::WriteFailed => GenerateEvent::WriteFailed,
        }
    }
}

impl View for GenerateAction<String> {
    type V = GenerateAction<Seq<char>>;

    open spec fn view(&self) -> GenerateAction<Seq<char>> {
        match *self {
            GenerateAction::CheckDir(path) => GenerateAction::CheckDir(path@),
            GenerateAction::ReadTemplate(path) => GenerateAction::ReadTemplate(path@),
            GenerateAction::WriteOutput { path, content } => GenerateAction::WriteOutput {
                path: path@,
                content: content@,
            },
            GenerateAction::Finish(outcome) => GenerateAction::Finish(outcome@),
        }
    }
}

/// The state of a generation.
#[derive(Debug, PartialEq, Eq)]
pub struct GenerateMachine {
    /// Where the generation stands.
    pub phase: GeneratePhase,
    /// The output directory.
    pub output_dir: String,
    /// The template file.
    pub template: String,
    /// The output file.
    pub output: String,
    /// The variables to fill in.
    pub vars: VariableSet,
}

/// The state of a generation, as plain values.
pub struct GenerateModel {
    pub phase: GeneratePhase,
    pub output_dir: Seq<char>,
    pub template: Seq<char>,
    pub output: Seq<char>,
    pub vars: Seq<(Seq<char>, Seq<char>)>,
}

impl View for GenerateMachine {
    type V = GenerateModel;

    open spec fn view(&self) -> GenerateModel {
        GenerateModel {
            phase: self.phase,
            output_dir: self.output_dir@,
            template: self.template@,
            output: self.output@,
            vars: self.vars@,
        }
    }
}

/// The exit status of the process for each outcome: 0 where the file was
/// generated, 1 otherwise.
pub open spec fn generate_exit_code(outcome: GenerateOutcome<Seq<char>>) -> int {
    match outcome {
        GenerateOutcome::Generated => 0,
        _ => 1,
    }
}

/// The output directory: the one given, or the current directory.
pub open spec fn output_dir_of(output_dir: Option<Seq<char>>) -> Seq<char> {
    match output_dir {
        Some(dir) => dir,
        None => "."@,
    }
}

/// The template file: the one given, or `Caddyfile.template` in the output
/// directory.
pub open spec fn template_of(output_dir: Option<Seq<char>>, template: Option<Seq<char>>) -> Seq<
    char,
> {
    match template {
        Some(file) => file,
        None => joined(output_dir_of(output_dir), "Caddyfile.template"@),
    }
}

/// The output file: `Caddyfile.dev` in the output directory.
pub open spec fn output_of(output_dir: Option<Seq<char>>) -> Seq<char> {
    joined(output_dir_of(output_dir), "Caddyfile.dev"@)
}

/// The beginning of a generation. The arguments are parsed before anything
/// else: a malformed one ends the run on the spot, and only with all of
/// them well-formed is the output directory looked at.
pub open spec fn generate_begin(
    output_dir: Option<Seq<char>>,
    template: Option<Seq<char>>,
    args: Seq<Seq<char>>,
) -> (GenerateModel, GenerateAction<Seq<char>>) {
    let m = GenerateModel {
        phase: GeneratePhase::Done,
        output_dir: output_dir_of(output_dir),
        template: template_of(output_dir, template),
        output: output_of(output_dir),
        vars: Seq::empty(),
    };
    match parsed_variables(args) {
        Ok(vars) => (
            GenerateModel { phase: GeneratePhase::CheckingDir, vars, ..m },
            GenerateAction::CheckDir(m.output_dir),
        ),
        Err(message) => (m, GenerateAction::Finish(GenerateOutcome::InvalidVariable(message))),
    }
}

/// The end of a generation with `outcome`.
pub open spec fn generate_stop(m: GenerateModel, outcome: GenerateOutcome<Seq<char>>) -> (
    GenerateModel,
    GenerateAction<Seq<char>>,
) {
    (GenerateModel { phase: GeneratePhase::Done, ..m }, GenerateAction::Finish(outcome))
}

/// The step of a generation: the state after `event`, and what is to be
/// done next.
///
/// The output directory must exist; it is not created. Then the template is
/// read, rendered with the variables, and the result written to the output
/// file as a whole. Each failure ends the run, and so does an event that
/// the state did not ask for.
pub open spec fn generate_next(m: GenerateModel, event: GenerateEvent<Seq<char>>) -> (
    GenerateModel,
    GenerateAction<Seq<char>>,
) {
    match m.phase {
        GeneratePhase::CheckingDir => match event {
            GenerateEvent::DirChecked(true) => (
                GenerateModel { phase: GeneratePhase::Reading, ..m },
                GenerateAction::ReadTemplate(m.template),
            ),
            GenerateEvent::DirChecked(false) => generate_stop(
                m,
                GenerateOutcome::MissingOutputDir,
            ),
            _ => generate_stop(m, GenerateOutcome::OutOfTurn),
        },
        GeneratePhase::Reading => match event {
            GenerateEvent::TemplateRead(text) => (
                GenerateModel { phase: GeneratePhase::Writing, ..m },
                GenerateAction::WriteOutput { path: m.output, content: rendered(text, m.vars) },
            ),
            GenerateEvent::ReadFailed => generate_stop(m, GenerateOutcome::TemplateUnreadable),
            _ => generate_stop(m, GenerateOutcome::OutOfTurn),
        },
        GeneratePhase::Writing => match event {
            GenerateEvent::Written => generate_stop(m, GenerateOutcome::Generated),
            GenerateEvent::WriteFailed => generate_stop(m, GenerateOutcome::WriteError),
            _ => generate_stop(m, GenerateOutcome::OutOfTurn),
        },
        GeneratePhase::Done => generate_stop(m, GenerateOutcome::OutOfTurn),
    }
}

/// The exit status of the process for `outcome`.
pub fn exit_code(outcome: &GenerateOutcome<String>) -> (code: i32)
    ensures
        code == generate_exit_code(outcome@),
{
    match outcome {
        GenerateOutcome::Generated => 0,
        _ => 1,
    }
}

impl GenerateMachine {
    /// Begins a generation with the arguments of the command line: the
    /// machine, and what is to be done first.
    pub fn start(output_dir: Option<String>, template: Option<String>, args: &Vec<String>) -> (out:
        (GenerateMachine, GenerateAction<String>))
        ensures
            (out.0@, out.1@) == generate_begin(
                output_dir.deep_view(),
                template.deep_view(),
                args.deep_view(),
            ),
    {
        let dir = match output_dir {
            Some(dir) => dir,
            None => String::from_str("."),
        };
        let template = match template {
            Some(file) => file,
            None => join_path(dir.as_str(), "Caddyfile.template"),
        };
        let output = join_path(dir.as_str(), "Caddyfile.dev");
        match parse_variables(args) {
            Ok(vars) => {
                let first = GenerateAction::CheckDir(dir.clone());
                let machine = GenerateMachine {
                    phase: GeneratePhase::CheckingDir,
                    output_dir: dir,
                    template,
                    output,
                    vars,
                };
                (machine, first)
            },
            Err(message) => {
                let machine = GenerateMachine {
                    phase: GeneratePhase::Done,
                    output_dir: dir,
                    template,
                    output,
                    vars: VariableSet::new(),
                };
                (machine, GenerateAction::Finish(GenerateOutcome::InvalidVariable(message)))
            },
        }
    }

    /// Ends the run with `outcome`.
    fn stop(&mut self, outcome: GenerateOutcome<String>) -> (action: GenerateAction<String>)
        ensures
            (final(self)@, action@) == generate_stop(old(self)@, outcome@),
    {
        self.phase = GeneratePhase::Done;
        GenerateAction::Finish(outcome)
    }

    /// Takes `event` and says what is to be done next.
    pub fn step(&mut self, event: GenerateEvent<String>) -> (action: GenerateAction<String>)
        ensures
            (final(self)@, action@) == generate_next(old(self)@, event@),
    {
        match self.phase {
            GeneratePhase::CheckingDir => match event {
                GenerateEvent::DirChecked(true) => {
                    self.phase = GeneratePhase::Reading;
                    GenerateAction::ReadTemplate(self.template.clone())
                },
                GenerateEvent::DirChecked(false) => self.stop(GenerateOutcome::MissingOutputDir),
                _ => self.stop(GenerateOutcome::OutOfTurn),
            },
            GeneratePhase::Reading => match event {
                GenerateEvent::TemplateRead(text) => {
                    self.phase = GeneratePhase::Writing;
                    GenerateAction::WriteOutput {
                        path: self.output.clone(),
                        content: render(text.as_str(), &self.vars),
                    }
                },
                GenerateEvent::ReadFailed => self.stop(GenerateOutcome::TemplateUnreadable),
                _ => self.stop(GenerateOutcome::OutOfTurn),
            },
            GeneratePhase::Writing => match event {
                GenerateEvent::Written => self.stop(GenerateOutcome::Generated),
                GenerateEvent::WriteFailed => self.stop(GenerateOutcome::WriteError),
                _ => self.stop(GenerateOutcome::OutOfTurn),
            },
            GeneratePhase::Done => self.stop(GenerateOutcome::OutOfTurn),
        }
    }
}

} // verus!
