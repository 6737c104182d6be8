//! The executor capability: what running a command, reading, writing and listing files
//! look like to the dispatcher, and the pure parts of a shell-backed executor.

use vstd::prelude::*;
use vstd::string::*;
use crate::text::{prefixed, string_views};

verus! {

/// What running a command produced.
#[derive(Debug, PartialEq, Eq)]
pub struct ExecutionResult {
    pub stdout: String,
    pub stderr: String,
    pub exit_code: i32,
    pub success: bool,
}

/// The capability to act on the system, under a fixed working directory and timeout.
/// A failure is reported as its message.
pub trait Executor {
    /// Runs a shell command and captures what it printed.
    fn execute(&self, command: &str) -> Result<ExecutionResult, String>;

    /// Reads a file as text.
    fn read_file(&self, path: &str) -> Result<String, String>;

    /// Writes text to a file.
    fn write_file(&self, path: &str, content: &str) -> Result<(), String>;

    /// Lists the entries that match a pattern, all entries without one.
    fn list_files(&self, pattern: Option<&str>) -> Result<Vec<String>, String>;
}

/// The timeout of an executor that was given none, in seconds.
pub const DEFAULT_TIMEOUT_SECS: u64 = 300;

/// The configuration of a shell-backed executor: where it works and how long a command may run.
#[derive(Clone, Debug, PartialEq, Eq)]
pub struct ShellExecutor {
    workdir: String,
    timeout_secs: u64,
}

impl ShellExecutor {
    /// The working directory.
    pub closed spec fn spec_workdir(&self) -> Seq<char> {
        self.workdir@
    }

    /// The timeout in seconds.
    pub closed spec fn spec_timeout_secs(&self) -> u64 {
        self.timeout_secs
    }

    /// An executor configuration for `workdir`, with the default timeout.
    pub fn new(workdir: String) -> (r: ShellExecutor)
        ensures
            r.spec_workdir() == workdir@,
            r.spec_timeout_secs() == DEFAULT_TIMEOUT_SECS,
    {
        ShellExecutor { workdir, timeout_secs: DEFAULT_TIMEOUT_SECS }
    }

    /// The same configuration with another timeout.
    pub fn with_timeout(self, timeout_secs: u64) -> (r: ShellExecutor)
        ensures
            r.spec_workdir() == self.spec_workdir(),
            r.spec_timeout_secs() == timeout_secs,
    {
        ShellExecutor { workdir: self.workdir, timeout_secs }
    }

    /// The working directory.
    pub fn workdir(&self) -> (r: &str)
        ensures
            r@ == self.spec_workdir(),
    {
        self.workdir.as_str()
    }

    /// The timeout in seconds.
    pub fn timeout_secs(&self) -> (r: u64)
        ensures
            r == self.spec_timeout_secs(),
    {
        self.timeout_secs
    }
}

impl ExecutionResult {
    /// The result of a finished process: a process without an exit code counts as -1.
    pub fn from_output(stdout: String, stderr: String, code: Option<i32>, success: bool) -> (r:
        ExecutionResult)
        ensures
            r.stdout@ == stdout@,
            r.stderr@ == stderr@,
            r.success == success,
            r.exit_code == (match code {
                Some(c) => c,
                None => -1i32,
            }),
    {
        let exit_code: i32 = match code {
            Some(c) => c,
            None => -1,
        };
        ExecutionResult { stdout, stderr, exit_code, success }
    }
}

/// The shell command that lists the entries matching `pattern`.
pub open spec fn list_command_text(pattern: Option<Seq<char>>) -> Seq<char> {
    "ls -1 "@ + (match pattern {
        Some(p) => p,
        None => "*"@,
    })
}

/// The shell command that lists the entries matching `pattern`, all entries without one.
pub fn list_command(pattern: Option<&str>) -> (r: String)
    ensures
        r@ == list_command_text(
            match pattern {
                Some(p) => Some(p@),
                None => None,
            },
        ),
{
    match pattern {
        Some(p) => prefixed("ls -1 ", p),
        None => prefixed("ls -1 ", "*"),
    }
}

/// The lines of a text, as `str::lines` yields them.
pub uninterp spec fn text_lines(text: Seq<char>) -> Seq<Seq<char>>;

/// Calls `str::lines` and collects the lines. Trusted: the lines are a function of the text,
/// named `text_lines`.
#[verifier::external_body]
fn lines_of(text: &str) -> (r: Vec<String>)
    ensures
        string_views(r@) == text_lines(text@),
{
    text.lines().map(String::from).collect()
}

/// The entries that a listing command reported: its output lines, none if it failed.
pub fn listing_from_output(success: bool, stdout: &str) -> (r: Vec<String>)
    ensures
        string_views(r@) == (if success {
            text_lines(stdout@)
        } else {
            Seq::<Seq<char>>::empty()
        }),
{
    if !success {
        let r: Vec<String> = Vec::new();
        assert(string_views(r@) =~= Seq::<Seq<char>>::empty());
        r
    } else {
        lines_of(stdout)
    }
}

/// The message of a failed read of `path`.
pub fn read_failure(path: &str) -> (r: String)
    ensures
        r@ == "Failed to read file: "@ + path@,
{
    prefixed("Failed to read file: ", path)
}

/// The message of a failed write to `path`.
pub fn write_failure(path: &str) -> (r: String)
    ensures
        r@ == "Failed to write file: "@ + path@,
{
    prefixed("Failed to write file: ", path)
}

} // verus!
