//! Turning host spawn options into a command ready to launch.
use crate::error::ConfigError;
use crate::stdio::{contradictory, stdin_setup_of, StdinSetup, StdioOptions, StdioPolicy};
use vstd::prelude::*;

verus! {

/// Spawn options as the host supplies them.
#[derive(Debug)]
pub struct SpawnOptions {
    /// Working directory of the child; the parent's when absent.
    pub cwd: Option<String>,
    /// Variables set on top of the inherited environment, in order; a later
    /// entry for the same name wins.
    pub env: Vec<(String, String)>,
    /// Run the command line through the system shell.
    pub shell: bool,
    pub stdio: StdioOptions,
}

/// A checked command: everything the launcher needs.
#[derive(Debug)]
pub struct CommandSpec {
    pub program: String,
    pub args: Vec<String>,
    pub cwd: Option<String>,
    pub env: Vec<(String, String)>,
    pub stdin: StdinSetup,
    pub stdout: StdioPolicy,
    pub stderr: StdioPolicy,
}

impl SpawnOptions {
    /// No working directory, no extra environment, no shell, default stdio.
    pub fn new() -> (r: SpawnOptions)
        ensures
            r.cwd is None,
            r.env@.len() == 0,
            !r.shell,
            r.stdio.stdin == StdioPolicy::Null,
            r.stdio.stdin_payload is None,
            r.stdio.stdout == StdioPolicy::Piped,
            r.stdio.stderr == StdioPolicy::Piped,
    {
        SpawnOptions { cwd: None, env: Vec::new(), shell: false, stdio: StdioOptions::new() }
    }
}

/// The shell that runs command lines when `shell` is set.
pub open spec fn shell_program() -> Seq<char> {
    "/bin/sh"@
}

/// The flag that hands the shell its command line.
pub open spec fn shell_flag() -> Seq<char> {
    "-c"@
}

/// The views of a list of strings.
pub open spec fn views(v: Seq<String>) -> Seq<Seq<char>> {
    v.map_values(|s: String| s@)
}

/// The command line given to the shell: the program, then each argument
/// after one space.
pub open spec fn shell_line(program: Seq<char>, args: Seq<Seq<char>>) -> Seq<char>
    decreases args.len(),
{
    if args.len() == 0 {
        program
    } else {
        shell_line(program, args.drop_last()) + seq![' '] + args.last()
    }
}

/// The first reason, if any, to reject the options: an empty program, then
/// contradictory stdio, then a working directory that does not exist.
pub open spec fn config_error(program: Seq<char>, options: SpawnOptions, cwd_exists: bool) -> Option<
    ConfigError,
> {
    if program.len() == 0 {
        Some(ConfigError::EmptyProgram)
    } else if contradictory(options.stdio) {
        Some(ConfigError::PayloadWithoutPipe)
    } else if options.cwd is Some && !cwd_exists {
        Some(ConfigError::MissingCwd)
    } else {
        None
    }
}

/// `c` launches `program` with `args` as `options` ask.
pub open spec fn launches(
    c: CommandSpec,
    program: Seq<char>,
    args: Seq<Seq<char>>,
    options: SpawnOptions,
) -> bool {
    &&& if options.shell {
        &&& c.program@ == shell_program()
        &&& c.args@.len() == 2
        &&& c.args@[0]@ == shell_flag()
        &&& c.args@[1]@ == shell_line(program, args)
    } else {
        c.program@ == program && views(c.args@) == args
    }
    &&& c.cwd == options.cwd
    &&& c.env == options.env
    &&& c.stdin == stdin_setup_of(options.stdio)
    &&& c.stdout == options.stdio.stdout
    &&& c.stderr == options.stdio.stderr
}

/// `r` is what checking `options` gives, with `cwd_exists` telling whether
/// the requested working directory exists.
pub open spec fn resolution(
    r: Result<CommandSpec, ConfigError>,
    program: Seq<char>,
    args: Seq<Seq<char>>,
    options: SpawnOptions,
    cwd_exists: bool,
) -> bool {
    match config_error(program, options, cwd_exists) {
        Some(e) => r == Err::<CommandSpec, ConfigError>(e),
        None => r matches Ok(c) && launches(c, program, args, options),
    }
}

/// Joins `program` and `args` into one command line, separated by spaces.
pub fn command_line(program: &str, args: &Vec<String>) -> (r: String)
    ensures
        r@ == shell_line(program@, views(args@)),
{
    let mut line = String::from_str(program);
    let mut i: usize = 0;
    while i < args.len()
        invariant
            i <= args@.len(),
            line@ == shell_line(program@, views(args@.subrange(0, i as int))),
        decreases args@.len() - i,
    {
        proof {
            reveal_strlit(" ");
            let next = views(args@.subrange(0, i + 1));
            assert(next.drop_last() =~= views(args@.subrange(0, i as int)));
            assert(next.last() == args@[i as int]@);
        }
        line.append(" ");
        line.append(args[i].as_str());
        proof {
            assert(line@ =~= shell_line(program@, views(args@.subrange(0, i + 1))));
        }
        i = i + 1;
    }
    proof {
        assert(args@.subrange(0, args@.len() as int) =~= args@);
    }
    line
}

/// Checks the options and builds the command, given whether the requested
/// working directory exists.
pub fn resolve(program: String, args: Vec<String>, options: SpawnOptions, cwd_exists: bool) -> (r:
    Result<CommandSpec, ConfigError>)
    ensures
        resolution(r, program@, views(args@), options, cwd_exists),
{
    if program.as_str().is_empty() {
        return Err(ConfigError::EmptyProgram);
    }
    let SpawnOptions { cwd, env, shell, stdio } = options;
    let StdioOptions { stdin, stdin_payload, stdout, stderr } = stdio;
    let stdin_setup = match stdin {
        StdioPolicy::Inherit => {
            if stdin_payload.is_some() {
                return Err(ConfigError::PayloadWithoutPipe);
            }
            StdinSetup::Inherit
        },
        StdioPolicy::Null => {
            if stdin_payload.is_some() {
                return Err(ConfigError::PayloadWithoutPipe);
            }
            StdinSetup::Null
        },
        StdioPolicy::Piped => StdinSetup::Piped(stdin_payload),
    };
    if cwd.is_some() && !cwd_exists {
        return Err(ConfigError::MissingCwd);
    }
    if shell {
        let line = command_line(program.as_str(), &args);
        proof {
            reveal_strlit("/bin/sh");
            reveal_strlit("-c");
        }
        let shell_args = vec![String::from_str("-c"), line];
        Ok(
            CommandSpec {
                program: String::from_str("/bin/sh"),
                args: shell_args,
                cwd,
                env,
                stdin: stdin_setup,
                stdout,
                stderr,
            },
        )
    } else {
        Ok(CommandSpec { program, args, cwd, env, stdin: stdin_setup, stdout, stderr })
    }
}

/// Relies on `std::path::Path::is_dir`: whether `path` names an existing
/// directory at the moment of the call. The answer depends on the file
/// system, so nothing is promised of it.
#[verifier::external_body]
fn dir_exists(path: &str) -> bool {
    std::path::Path::new(path).is_dir()
}

/// Checks the options and builds the command, looking up the requested
/// working directory, if any, on the file system.
pub fn resolve_spawn_options(program: String, args: Vec<String>, options: SpawnOptions) -> (r:
    Result<CommandSpec, ConfigError>)
    ensures
        resolution(r, program@, views(args@), options, true) || resolution(
            r,
            program@,
            views(args@),
            options,
            false,
        ),
        options.cwd is None ==> resolution(r, program@, views(args@), options, true),
{
    let cwd_exists = match &options.cwd {
        Some(dir) => dir_exists(dir.as_str()),
        None => true,
    };
    resolve(program, args, options, cwd_exists)
}

} // verus!
