//! Outcome classification and output-stream selection used by the
//! comparison harnesses around the tool.

use vstd::prelude::*;

verus! {

/// How checking one advisory's package turned out.
#[derive(Clone, Copy, Debug, PartialEq, Eq, Structural)]
pub enum Outcome {
    Error,
    NotFound,
    Found,
}

impl Outcome {
    /// The kebab-case label under which the outcome is reported.
    pub fn label(&self) -> (r: &'static str)
        ensures
            match self {
                Outcome::Error => r@ == "error"@,
                Outcome::NotFound => r@ == "not-found"@,
                Outcome::Found => r@ == "found"@,
            },
    {
        match self {
            Outcome::Error => "error",
            Outcome::NotFound => "not-found",
            Outcome::Found => "found",
        }
    }

    /// Classifies the tool's exit status: 0 means the package was not
    /// found unmaintained, 1 means it was, 2 means the check errored.
    /// Any other status is outside the tool's contract.
    pub fn from_exit_code(code: i32) -> (r: Option<Outcome>)
        ensures
            code == 0 ==> r == Some(Outcome::NotFound),
            code == 1 ==> r == Some(Outcome::Found),
            code == 2 ==> r == Some(Outcome::Error),
            !(code == 0 || code == 1 || code == 2) ==> r is None,
    {
        match code {
            0 => Some(Outcome::NotFound),
            1 => Some(Outcome::Found),
            2 => Some(Outcome::Error),
            _ => None,
        }
    }
}

/// Which of a child process's output streams is captured.
#[derive(Clone, Copy, Debug, PartialEq, Eq, Structural)]
pub enum Tee {
    Stdout,
    Stderr,
}

} // verus!
