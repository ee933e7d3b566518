//! What can go wrong while an environment is created.

use vstd::prelude::*;

verus! {

/// The ways in which running external commands for an environment fails.
#[derive(Clone, Debug, PartialEq, Eq)]
pub enum VenvError {
    /// The executable could not be found or started; holds the cause.
    Spawn(String),
    /// A command ran and ended with a failure status.
    CommandFailed,
    /// The tool that creates the environment ended with a failure status.
    CreateFailed,
    /// The package installer ended with a failure status.
    InstallFailed,
    /// Changing the directory or waiting for a process failed; holds the
    /// cause.
    Io(String),
}

/// The mathematical value of a [`VenvError`].
pub enum VenvErrorView {
    Spawn(Seq<char>),
    CommandFailed,
    CreateFailed,
    InstallFailed,
    Io(Seq<char>),
}

impl View for VenvError {
    type V = VenvErrorView;

    open spec fn view(&self) -> VenvErrorView {
        match self {
            VenvError::Spawn(cause) => VenvErrorView::Spawn(cause@),
            VenvError::CommandFailed => VenvErrorView::CommandFailed,
            VenvError::CreateFailed => VenvErrorView::CreateFailed,
            VenvError::InstallFailed => VenvErrorView::InstallFailed,
            VenvError::Io(cause) => VenvErrorView::Io(cause@),
        }
    }
}

/// The value of the result of running an external command.
pub open spec fn run_result(r: Result<(), VenvError>) -> Result<(), VenvErrorView> {
    match r {
        Ok(()) => Ok(()),
        Err(e) => Err(e@),
    }
}

/// The text that describes an error to the user.
pub open spec fn error_message(e: VenvErrorView) -> Seq<char> {
    match e {
        VenvErrorView::Spawn(cause) => "Failed to execute command: "@ + cause,
        VenvErrorView::CommandFailed => "Command failed"@,
        VenvErrorView::CreateFailed => "Error creating virtual environment"@,
        VenvErrorView::InstallFailed => "Error installing packages"@,
        VenvErrorView::Io(cause) => cause,
    }
}

impl VenvError {
    /// The text that describes this error to the user.
    pub fn message(&self) -> (text: String)
        ensures
            text@ == error_message(self@),
    {
        match self {
            VenvError::Spawn(cause) => {
                let mut text = String::from_str("Failed to execute command: ");
                text.append(cause.as_str());
                text
            },
            VenvError::CommandFailed => String::from_str("Command failed"),
            VenvError::CreateFailed => String::from_str("Error creating virtual environment"),
            VenvError::InstallFailed => String::from_str("Error installing packages"),
            VenvError::Io(cause) => cause.clone(),
        }
    }

    /// A copy of this error.
    pub fn duplicate(&self) -> (copy: VenvError)
        ensures
            copy@ == self@,
    {
        match self {
            VenvError::Spawn(cause) => VenvError::Spawn(cause.clone()),
            VenvError::CommandFailed => VenvError::CommandFailed,
            VenvError::CreateFailed => VenvError::CreateFailed,
            VenvError::InstallFailed => VenvError::InstallFailed,
            VenvError::Io(cause) => VenvError::Io(cause.clone()),
        }
    }
}

} // verus!
