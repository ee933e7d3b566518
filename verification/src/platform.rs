//! The two platform families and what differs between them: where an
//! environment keeps its activation script, and which shell runs commands.

use vstd::prelude::*;

verus! {

/// The platform family the program runs on.
#[derive(Clone, Copy, Debug, PartialEq, Eq, Structural)]
pub enum Platform {
    /// Unix-like systems, with a POSIX shell.
    Posix,
    /// Windows, with PowerShell.
    Windows,
}

/// The directory of the environment `name` under `root`.
pub open spec fn venv_dir(root: Seq<char>, name: Seq<char>) -> Seq<char> {
    root + "/"@ + name
}

/// Where the activation script lies inside an environment's directory.
pub open spec fn script_suffix(platform: Platform) -> Seq<char> {
    match platform {
        Platform::Posix => "/bin/activate"@,
        Platform::Windows => "/scripts/activate.ps1"@,
    }
}

/// The activation script of the environment `name` under `root`.
pub open spec fn activation_script(platform: Platform, root: Seq<char>, name: Seq<char>) -> Seq<
    char,
> {
    venv_dir(root, name) + script_suffix(platform)
}

/// The program that runs a command line on this platform.
pub open spec fn command_shell(platform: Platform) -> Seq<char> {
    match platform {
        Platform::Posix => "bash"@,
        Platform::Windows => "pwsh"@,
    }
}

/// The flag after which that program expects the command line.
pub open spec fn command_flag(platform: Platform) -> Seq<char> {
    match platform {
        Platform::Posix => "-c"@,
        Platform::Windows => "-Command"@,
    }
}

/// Path of the directory of the environment `name` under `root`.
pub fn environment_dir(root: &str, name: &str) -> (dir: String)
    ensures
        dir@ == venv_dir(root@, name@),
{
    let mut dir = String::from_str(root);
    dir.append("/");
    dir.append(name);
    dir
}

impl Platform {
    /// Path of the activation script of the environment `name` under `root`.
    pub fn activation_script(self, root: &str, name: &str) -> (script: String)
        ensures
            script@ == activation_script(self, root@, name@),
    {
        let mut script = environment_dir(root, name);
        match self {
            Platform::Posix => script.append("/bin/activate"),
            Platform::Windows => script.append("/scripts/activate.ps1"),
        }
        script
    }

    /// The program that runs a command line on this platform.
    pub fn command_shell(self) -> (shell: String)
        ensures
            shell@ == command_shell(self),
    {
        match self {
            Platform::Posix => String::from_str("bash"),
            Platform::Windows => String::from_str("pwsh"),
        }
    }

    /// The flag after which [`Platform::command_shell`] expects the command line.
    pub fn command_flag(self) -> (flag: String)
        ensures
            flag@ == command_flag(self),
    {
        match self {
            Platform::Posix => String::from_str("-c"),
            Platform::Windows => String::from_str("-Command"),
        }
    }
}

} // verus!
