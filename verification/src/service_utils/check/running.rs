//! Where ollama is found and how its service is started.
use vstd::prelude::*;

verus! {

/// The address at which a running ollama answers.
pub const OLLAMA_URL: &'static str = "http://localhost:11434";

/// The command of an ollama installed on the system's path.
pub const GLOBAL_COMMAND: &'static str = "ollama";

/// The argument that starts ollama's service.
pub const SERVE_ARG: &'static str = "serve";

/// The ollama executable bundled beside the program, relative to the
/// program's directory: under `ollama-windows` on Windows, inside the
/// application bundle on macOS.
pub fn bundled_executable(on_windows: bool) -> (path: &'static str)
    ensures
        path@ == (if on_windows {
            "ollama-windows/ollama.exe"@
        } else {
            "Ollama.app/Contents/MacOS/Ollama"@
        }),
{
    if on_windows {
        "ollama-windows/ollama.exe"
    } else {
        "Ollama.app/Contents/MacOS/Ollama"
    }
}

/// The command that finds a program on the system's path: `where` on
/// Windows, `which` elsewhere.
pub fn locate_command(on_windows: bool) -> (cmd: &'static str)
    ensures
        cmd@ == (if on_windows {
            "where"@
        } else {
            "which"@
        }),
{
    if on_windows {
        "where"
    } else {
        "which"
    }
}

/// Where the program that serves ollama is found.
#[derive(Debug, Clone, Copy, PartialEq, Eq)]
pub enum ServiceProgram {
    /// A command found on the system's path.
    OnPath(&'static str),
    /// An executable at this path relative to the program's directory.
    BesideProgram(&'static str),
}

/// The program that starts ollama's service: `ollama` from the system's
/// path when it is installed globally, otherwise the bundled executable.
pub fn service_program(globally: bool, on_windows: bool) -> (p: ServiceProgram)
    ensures
        globally ==> (p matches ServiceProgram::OnPath(c) && c@ == GLOBAL_COMMAND@),
        !globally ==> (p matches ServiceProgram::BesideProgram(rel) && rel@ == (if on_windows {
            "ollama-windows/ollama.exe"@
        } else {
            "Ollama.app/Contents/MacOS/Ollama"@
        })),
{
    if globally {
        ServiceProgram::OnPath(GLOBAL_COMMAND)
    } else {
        ServiceProgram::BesideProgram(bundled_executable(on_windows))
    }
}

} // verus!
