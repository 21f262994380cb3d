//! What can go wrong before the first frame, and how the process ends.

use vstd::prelude::*;
use crate::linker::{LinkError, LinkErrorView};
use crate::stage::{CompileError, CompileErrorView};

verus! {

/// The window, the rendering context or the binding of the graphics API could
/// not be had.
#[derive(Clone, Debug, PartialEq, Eq)]
pub struct ContextError {
    /// What the windowing collaborator reported.
    pub message: String,
}

/// A failure of the setup. None is retried: each ends the process.
#[derive(Clone, Debug, PartialEq, Eq)]
pub enum SetupError {
    Context(ContextError),
    Compile(CompileError),
    Link(LinkError),
}

/// What a [`SetupError`] is, as a mathematical value.
pub enum SetupErrorView {
    Context(Seq<char>),
    Compile(CompileErrorView),
    Link(LinkErrorView),
}

impl View for SetupError {
    type V = SetupErrorView;

    open spec fn view(&self) -> SetupErrorView {
        match *self {
            SetupError::Context(error) => SetupErrorView::Context(error.message@),
            SetupError::Compile(error) => SetupErrorView::Compile(error@),
            SetupError::Link(error) => SetupErrorView::Link(error@),
        }
    }
}

impl SetupErrorView {
    /// The text to print: the collaborator's message, or the device's log.
    pub open spec fn diagnostic(self) -> Seq<char> {
        match self {
            SetupErrorView::Context(message) => message,
            SetupErrorView::Compile(error) => error.log,
            SetupErrorView::Link(error) => error.log,
        }
    }
}

impl SetupError {
    /// The text to print before the process ends.
    pub fn diagnostic(&self) -> (text: &str)
        ensures
            text@ == self@.diagnostic(),
    {
        match self {
            SetupError::Context(error) => error.message.as_str(),
            SetupError::Compile(error) => error.log.as_str(),
            SetupError::Link(error) => error.log.as_str(),
        }
    }
}

/// The exit code of a process, by whether its setup failed.
pub open spec fn exit_code_of(failed: bool) -> i32 {
    if failed {
        1
    } else {
        0
    }
}

/// The exit code of the process: zero after a normal quit, and non-zero
/// after a setup failure.
pub fn exit_code(outcome: &Result<(), SetupError>) -> (code: i32)
    ensures
        code == exit_code_of(outcome is Err),
        code == 0 <==> outcome is Ok,
{
    match outcome {
        Ok(_) => 0,
        Err(_) => 1,
    }
}

} // verus!
