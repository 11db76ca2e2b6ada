//! Programs to run, and what they leave behind.
use crate::text::string_views;
use vstd::prelude::*;

verus! {

/// A program to run, with its arguments.
#[derive(Debug, Clone)]
pub struct Invocation {
    pub program: String,
    pub args: Vec<String>,
}

/// What an [`Invocation`] holds.
pub struct InvocationView {
    pub program: Seq<char>,
    pub args: Seq<Seq<char>>,
}

impl View for Invocation {
    type V = InvocationView;

    open spec fn view(&self) -> InvocationView {
        InvocationView { program: self.program@, args: string_views(self.args@) }
    }
}

/// What a program that ran to its end left behind.
#[derive(Debug, Clone)]
pub struct ProcessOutput {
    /// Whether it exited with success.
    pub success: bool,
    pub stdout: String,
    pub stderr: String,
}

} // verus!
