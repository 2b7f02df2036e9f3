//! A build, request by request.
//!
//! A [`Build`] never acts. It says what is to be done next; the driver does
//! it and reports; the build takes the report and says what comes then.

use crate::config::KitConfig;
use crate::error::{BuildError, Stage};
use crate::model;
use crate::model::{BuildView, ReportView, RequestView};
use crate::plan::{plan, Step};
use vstd::prelude::*;

verus! {

/// How a report turns a build.
#[derive(Clone, Copy, PartialEq, Eq, Debug, Structural)]
pub enum Turn {
    /// Nothing changes.
    Stay,
    /// The step the build stands at is to be taken.
    Probed,
    /// The step is behind; the build stands at the one after it.
    Next,
    /// The build is given up.
    Fail { stage: Stage },
}

/// What a build asks its driver to do.
#[derive(Debug, Clone, PartialEq, Eq)]
pub enum Request {
    /// Read the build specification from a file and report it.
    LoadConfig { path: String },
    /// Show a message.
    Announce { message: String },
    /// Report whether anything is at a path.
    Probe { path: String },
    /// Delete a directory and all below it.
    RemoveDir { path: String },
    /// Create a directory and its parents.
    CreateDir { path: String },
    /// Write a file.
    WriteFile { path: String, contents: String },
    /// Hand a command line to the shell and wait for it.
    Shell { command: String, cwd: Option<String> },
    /// Nothing is left to do: the build has succeeded.
    Finish,
    /// The build has failed.
    Abort { error: BuildError },
}

impl View for Request {
    type V = RequestView;

    open spec fn view(&self) -> RequestView {
        match self {
            Request::LoadConfig { path } => RequestView::LoadConfig { path: path@ },
            Request::Announce { message } => RequestView::Announce { message: message@ },
            Request::Probe { path } => RequestView::Probe { path: path@ },
            Request::RemoveDir { path } => RequestView::RemoveDir { path: path@ },
            Request::CreateDir { path } => RequestView::CreateDir { path: path@ },
            Request::WriteFile { path, contents } => RequestView::WriteFile {
                path: path@,
                contents: contents@,
            },
            Request::Shell { command, cwd } => RequestView::Shell {
                command: command@,
                cwd: cwd.deep_view(),
            },
            Request::Finish => RequestView::Finish,
            Request::Abort { error } => RequestView::Abort { error: error@ },
        }
    }
}

/// What the driver reports of a request.
#[derive(Debug, Clone, PartialEq, Eq)]
pub enum Report {
    /// The build specification was read.
    Loaded { config: KitConfig },
    /// Something is at the path.
    Present,
    /// Nothing is at the path.
    Absent,
    /// The request was carried out.
    Done,
    /// The command ran and ended: with an exit code, unless a signal ended
    /// it. `stderr` holds what it wrote to its standard error, as far as
    /// that was captured.
    Exited { code: Option<i32>, stderr: String },
    /// The request could not be carried out. `detail` holds the text of the
    /// error.
    Failed { detail: String },
}

impl View for Report {
    type V = ReportView;

    open spec fn view(&self) -> ReportView {
        match self {
            Report::Loaded { config } => ReportView::Loaded { config: config@ },
            Report::Present => ReportView::Present,
            Report::Absent => ReportView::Absent,
            Report::Done => ReportView::Done,
            Report::Exited { code, stderr } => ReportView::Exited { code: *code, stderr: stderr@ },
            Report::Failed { detail } => ReportView::Failed { detail: detail@ },
        }
    }
}

/// How a report turns a build that stands at a step which is taken whatever
/// is on disk.
fn plain_turn(stage: Stage, report: &Report) -> (turn: Turn)
    ensures
        turn == model::plain_turn(stage, report@),
{
    match report {
        Report::Failed { .. } => Turn::Fail { stage },
        Report::Done => Turn::Next,
        _ => Turn::Stay,
    }
}

/// How a report turns a build that stands at `step`.
pub fn turn(step: &Step, probed: bool, report: &Report) -> (turn: Turn)
    ensures
        turn == model::turn(step@, probed, report@),
{
    match step {
        Step::Announce { .. } => match report {
            Report::Done => Turn::Next,
            Report::Failed { .. } => Turn::Next,
            _ => Turn::Stay,
        },
        Step::RemoveDir { stage, .. } => match report {
            Report::Failed { .. } => Turn::Fail { stage: *stage },
            Report::Present => if probed {
                Turn::Stay
            } else {
                Turn::Probed
            },
            Report::Absent => if probed {
                Turn::Stay
            } else {
                Turn::Next
            },
            Report::Done => if probed {
                Turn::Next
            } else {
                Turn::Stay
            },
            _ => Turn::Stay,
        },
        Step::EnsureDir { stage, .. } => match report {
            Report::Failed { .. } => Turn::Fail { stage: *stage },
            Report::Present => if probed {
                Turn::Stay
            } else {
                Turn::Next
            },
            Report::Absent => if probed {
                Turn::Stay
            } else {
                Turn::Probed
            },
            Report::Done => if probed {
                Turn::Next
            } else {
                Turn::Stay
            },
            _ => Turn::Stay,
        },
        Step::CreateDir { stage, .. } => plain_turn(*stage, report),
        Step::WriteFile { stage, .. } => plain_turn(*stage, report),
        Step::Shell { stage, .. } => match report {
            Report::Failed { .. } => Turn::Fail { stage: *stage },
            Report::Exited { code, .. } => match code {
                Some(0) => Turn::Next,
                _ => Turn::Fail { stage: *stage },
            },
            _ => Turn::Stay,
        },
    }
}

/// What a step asks of the driver.
pub fn step_request(step: &Step, probed: bool) -> (request: Request)
    ensures
        request@ == model::step_request(step@, probed),
{
    match step {
        Step::Announce { message } => Request::Announce { message: message.clone() },
        Step::RemoveDir { path, .. } => if probed {
            Request::RemoveDir { path: path.clone() }
        } else {
            Request::Probe { path: path.clone() }
        },
        Step::CreateDir { path, .. } => Request::CreateDir { path: path.clone() },
        Step::EnsureDir { path, .. } => if probed {
            Request::CreateDir { path: path.clone() }
        } else {
            Request::Probe { path: path.clone() }
        },
        Step::WriteFile { path, contents, .. } => Request::WriteFile {
            path: path.clone(),
            contents: contents.clone(),
        },
        Step::Shell { command, cwd, .. } => Request::Shell {
            command: command.clone(),
            cwd: match cwd {
                Some(dir) => Some(dir.clone()),
                None => None,
            },
        },
    }
}

/// One build, from the reading of its specification to its end.
pub struct Build {
    root: String,
    plan: Option<Vec<Step>>,
    cursor: usize,
    probed: bool,
    failure: Option<BuildError>,
}

impl View for Build {
    type V = BuildView;

    closed spec fn view(&self) -> BuildView {
        BuildView {
            root: self.root@,
            plan: self.plan.deep_view(),
            cursor: self.cursor as nat,
            probed: self.probed,
            failure: self.failure.deep_view(),
        }
    }
}

impl Build {
    /// A build in the workspace `root`, before anything is asked for.
    pub fn new(root: &str) -> (build: Build)
        ensures
            build@ == model::start(root@),
    {
        Build { root: String::from_str(root), plan: None, cursor: 0, probed: false, failure: None }
    }

    /// What is to be done now.
    pub fn request(&self) -> (request: Request)
        ensures
            request@ == model::request(self@),
    {
        match &self.failure {
            Some(error) => {
                return Request::Abort { error: copy_of_error(error) };
            },
            None => {},
        }
        match &self.plan {
            None => Request::LoadConfig { path: String::from_str("kit.toml") },
            Some(steps) => {
                if self.cursor < steps.len() {
                    step_request(&steps[self.cursor], self.probed)
                } else {
                    Request::Finish
                }
            },
        }
    }

    /// Takes the report of what was asked for last.
    pub fn advance(&mut self, report: Report)
        ensures
            final(self)@ == model::advance(old(self)@, report@),
    {
        if self.failure.is_some() {
            return ;
        }
        if self.plan.is_none() {
            match report {
                Report::Loaded { config } => {
                    self.plan = Some(plan(self.root.as_str(), &config));
                    self.cursor = 0;
                    self.probed = false;
                },
                Report::Failed { detail } => {
                    self.failure = Some(BuildError::Configuration { detail });
                },
                _ => {},
            }
            return ;
        }
        let turn = match &self.plan {
            Some(steps) => {
                if self.cursor < steps.len() {
                    turn(&steps[self.cursor], self.probed, &report)
                } else {
                    Turn::Stay
                }
            },
            None => Turn::Stay,
        };
        match turn {
            Turn::Stay => {},
            Turn::Probed => {
                self.probed = true;
            },
            Turn::Next => {
                self.cursor = self.cursor + 1;
                self.probed = false;
            },
            Turn::Fail { stage } => {
                let detail = match report {
                    Report::Failed { detail } => detail,
                    Report::Exited { stderr, .. } => stderr,
                    _ => String::new(),
                };
                self.failure = Some(BuildError::of_stage(stage, detail));
            },
        }
    }

    /// The code with which the process ends, once the build is over: 0 after
    /// a success, 1 after any failure.
    pub fn exit_code(&self) -> (code: Option<i32>)
        ensures
            match code {
                Some(code) => model::exit_code(self@) == Some(code as int),
                None => model::exit_code(self@) is None,
            },
    {
        if self.failure.is_some() {
            return Some(1);
        }
        match &self.plan {
            Some(steps) => if self.cursor >= steps.len() {
                Some(0)
            } else {
                None
            },
            None => None,
        }
    }
}

/// The same error once more.
fn copy_of_error(error: &BuildError) -> (copy: BuildError)
    ensures
        copy@ == error@,
{
    match error {
        BuildError::Configuration { detail } => BuildError::Configuration {
            detail: detail.clone(),
        },
        BuildError::Filesystem { stage, detail } => BuildError::Filesystem {
            stage: *stage,
            detail: detail.clone(),
        },
        BuildError::BuildStep { stage, stderr } => BuildError::BuildStep {
            stage: *stage,
            stderr: stderr.clone(),
        },
    }
}

} // verus!
