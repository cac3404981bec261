//! Stdio wiring and spawn planning for child processes.
//!
//! The functions here decide everything about a spawn that does not need the
//! operating system: how each stdio stream is wired, which token is the
//! program and which are its arguments, and how an exit status maps to a
//! result. An unverified shim performs the actual spawn from the returned
//! plan and feeds the outcome back in.

use vstd::prelude::*;
use vstd::string::*;

verus! {

/// How to wire a stdio stream for the child process.
#[derive(Debug, Clone, Copy, PartialEq, Eq, Structural)]
pub enum StdioMode {
    /// Inherit from current process.
    Inherit,
    /// Create a pipe between parent and child.
    Piped,
    /// Redirect to null device.
    Null,
}

impl Default for StdioMode {
    /// Inherit from the current process.
    fn default() -> (r: Self)
        ensures
            r == StdioMode::Inherit,
    {
        StdioMode::Inherit
    }
}

/// A failure in the command pipeline.
#[derive(Debug, Clone, PartialEq, Eq)]
pub enum ProcessError {
    /// The normalized argv had zero tokens: there is no program to run.
    EmptyCommand,
    /// Stdin data was provided but the child's stdin handle could not be
    /// written to.
    StdinUnavailable,
    /// The underlying OS spawn failed; carries the OS error text verbatim.
    SpawnFailed(String),
    /// The process ran but exited with a non-success status; carries a
    /// message naming the program.
    CommandFailed(String),
}

/// Returns the error used when a command has no tokens.
pub fn empty_command_err() -> (r: ProcessError)
    ensures
        r == ProcessError::EmptyCommand,
{
    ProcessError::EmptyCommand
}

/// The stdin mode actually used at spawn time: when stdin data is present
/// the stream must be piped so the data can be written, whatever was
/// configured; otherwise the configured mode stands.
pub open spec fn spec_effective_stdin_mode(has_data: bool, stdin: StdioMode) -> StdioMode {
    if has_data {
        StdioMode::Piped
    } else {
        stdin
    }
}

/// Computes the effective stdin mode; see `spec_effective_stdin_mode`.
pub fn effective_stdin_mode(has_data: bool, stdin: StdioMode) -> (r: StdioMode)
    ensures
        r == spec_effective_stdin_mode(has_data, stdin),
{
    if has_data {
        StdioMode::Piped
    } else {
        stdin
    }
}

/// Everything an OS spawn needs, fully resolved: the program, its literal
/// arguments (no shell is involved), the three stream modes, and the bytes
/// to write to the child's stdin, if any.
#[derive(Debug, Clone)]
pub struct SpawnPlan {
    pub program: String,
    pub args: Vec<String>,
    pub stdin: StdioMode,
    pub stdout: StdioMode,
    pub stderr: StdioMode,
    pub stdin_data: Option<Vec<u8>>,
}

/// A small builder that treats a token list as an argv-like sequence: the
/// first item is the program to execute, the remaining items are passed as
/// literal arguments, without going through a shell. `stdin_data`, when
/// present, will be written into the child's stdin after spawning, which
/// forces stdin to `Piped`.
#[derive(Debug, Clone)]
pub struct CommandSpawner {
    /// child's stdin mode.
    pub stdin: StdioMode,
    /// child's stdout mode.
    pub stdout: StdioMode,
    /// child's stderr mode.
    pub stderr: StdioMode,
    /// The argv tokens, the first being the program; `None` or empty makes
    /// planning fail with `EmptyCommand`.
    pub command: Option<Vec<String>>,
    /// Optional bytes to write into the child's stdin after spawning.
    pub stdin_data: Option<Vec<u8>>,
}

impl Default for CommandSpawner {
    /// Creates a spawner with "inherit everything" stdio, and no command or
    /// stdin data.
    fn default() -> (r: Self)
        ensures
            r.stdin == StdioMode::Inherit,
            r.stdout == StdioMode::Inherit,
            r.stderr == StdioMode::Inherit,
            r.command is None,
            r.stdin_data is None,
    {
        CommandSpawner {
            stdin: StdioMode::Inherit,
            stdout: StdioMode::Inherit,
            stderr: StdioMode::Inherit,
            command: None,
            stdin_data: None,
        }
    }
}

impl CommandSpawner {
    /// Whether planning succeeds: there is a command with at least one token.
    pub open spec fn has_program(&self) -> bool {
        self.command matches Some(v) && v@.len() > 0
    }

    /// Sets the stdin mode.
    pub fn with_stdin(self, mode: StdioMode) -> (r: Self)
        ensures
            r == (Self { stdin: mode, ..self }),
    {
        Self { stdin: mode, ..self }
    }

    /// Sets the stdout mode.
    pub fn with_stdout(self, mode: StdioMode) -> (r: Self)
        ensures
            r == (Self { stdout: mode, ..self }),
    {
        Self { stdout: mode, ..self }
    }

    /// Sets the stderr mode.
    pub fn with_stderr(self, mode: StdioMode) -> (r: Self)
        ensures
            r == (Self { stderr: mode, ..self }),
    {
        Self { stderr: mode, ..self }
    }

    /// Sets the argv tokens.
    pub fn with_command(self, command: Option<Vec<String>>) -> (r: Self)
        ensures
            r == (Self { command, ..self }),
    {
        Self { command, ..self }
    }

    /// Sets the bytes to write into the child's stdin.
    pub fn with_stdin_data(self, stdin_data: Option<Vec<u8>>) -> (r: Self)
        ensures
            r == (Self { stdin_data, ..self }),
    {
        Self { stdin_data, ..self }
    }

    /// Resolves this configuration into a spawn plan.
    ///
    /// Fails with `EmptyCommand` exactly when there is no token to use as
    /// the program; no spawn is planned in that case. Otherwise the first
    /// token becomes the program, the remaining tokens its arguments in
    /// order, stdin is forced to `Piped` whenever stdin data is present, and
    /// the other streams keep their configured modes.
    pub fn spawn_plan(self) -> (r: Result<SpawnPlan, ProcessError>)
        ensures
            r is Ok <==> self.has_program(),
            r matches Err(e) ==> e == ProcessError::EmptyCommand,
            r matches Ok(p) ==> {
                let argv = self.command->Some_0;
                &&& p.program@ == argv.deep_view()[0]
                &&& p.args.deep_view() == argv.deep_view().drop_first()
                &&& p.stdin == spec_effective_stdin_mode(
                    self.stdin_data is Some,
                    self.stdin,
                )
                &&& p.stdout == self.stdout
                &&& p.stderr == self.stderr
                &&& p.stdin_data == self.stdin_data
            },
    {
        let CommandSpawner { stdin, stdout, stderr, command, stdin_data } = self;
        let mut argv = match command {
            Some(v) => v,
            _ => {
                return Err(empty_command_err());
            },
        };
        if argv.len() == 0 {
            return Err(empty_command_err());
        }
        let program = argv.remove(0);
        let ghost orig = self.command->Some_0.deep_view();
        proof {
            assert(argv.deep_view() =~= orig.drop_first());
        }
        Ok(
            SpawnPlan {
                program,
                args: argv,
                stdin: effective_stdin_mode(stdin_data.is_some(), stdin),
                stdout,
                stderr,
                stdin_data,
            },
        )
    }

    /// Resolves a plan for a capturing run: the requested streams are forced
    /// to `Piped` before planning, whatever was configured; everything else
    /// is as in `spawn_plan`.
    pub fn capture_plan(self, cap_out: bool, cap_err: bool) -> (r: Result<
        SpawnPlan,
        ProcessError,
    >)
        ensures
            r is Ok <==> self.has_program(),
            r matches Err(e) ==> e == ProcessError::EmptyCommand,
            r matches Ok(p) ==> {
                let argv = self.command->Some_0;
                &&& p.program@ == argv.deep_view()[0]
                &&& p.args.deep_view() == argv.deep_view().drop_first()
                &&& p.stdin == spec_effective_stdin_mode(
                    self.stdin_data is Some,
                    self.stdin,
                )
                &&& p.stdout == (if cap_out {
                    StdioMode::Piped
                } else {
                    self.stdout
                })
                &&& p.stderr == (if cap_err {
                    StdioMode::Piped
                } else {
                    self.stderr
                })
                &&& p.stdin_data == self.stdin_data
            },
    {
        let forced_out = if cap_out {
            self.with_stdout(StdioMode::Piped)
        } else {
            self
        };
        let forced = if cap_err {
            forced_out.with_stderr(StdioMode::Piped)
        } else {
            forced_out
        };
        forced.spawn_plan()
    }
}

/// The failure message `run` attaches to a non-success exit status.
pub open spec fn run_failure_msg(program: Seq<char>) -> Seq<char> {
    "Failed to run command: "@ + program
}

/// Maps the exit of a non-capturing run to a result: success gives `Ok`,
/// anything else gives `CommandFailed` naming the program. Capturing runs do
/// not use this mapping: they return the captured output whatever the exit
/// status was.
pub fn finish_run(success: bool, program: &str) -> (r: Result<(), ProcessError>)
    ensures
        r is Ok <==> success,
        r matches Err(e) ==> e matches ProcessError::CommandFailed(m) && m@ == run_failure_msg(
            program@,
        ),
{
    if success {
        Ok(())
    } else {
        let mut msg = String::from_str("Failed to run command: ");
        msg.append(program);
        Err(ProcessError::CommandFailed(msg))
    }
}

} // verus!
