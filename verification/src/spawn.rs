//! The spawner's decisions: the shell fallback for commands that cannot be
//! resolved, the bookkeeping once the operating system has created a process,
//! and the error reported when spawning fails for good.
use crate::registry::ManagedProcess;
use crate::text::texts;
use vstd::prelude::*;
use vstd::string::StringExecFns;

verus! {

/// The host families that differ in their fallback shell.
#[derive(Clone, Copy, Debug, PartialEq, Eq)]
pub enum Platform {
    Windows,
    Unix,
}

/// Which attempt a spawn request is.
#[derive(Clone, Copy, Debug, PartialEq, Eq)]
pub enum Attempt {
    /// The command as the caller gave it.
    First,
    /// The one retry through the platform's shell.
    Fallback,
}

/// A command line to hand to the operating system.
#[derive(Debug, PartialEq, Eq)]
pub struct SpawnRequest {
    pub command: String,
    pub args: Vec<String>,
    pub attempt: Attempt,
}

/// Why the operating system did not give a usable process.
#[derive(Debug, PartialEq, Eq)]
pub struct SpawnFailure {
    /// The named command could not be resolved. No other cause is retried.
    pub not_found: bool,
    /// The underlying message.
    pub detail: String,
}

/// The failure reported to the caller of spawn: the command line that was
/// tried last, whether that was the fallback, and the underlying message.
#[derive(Debug, PartialEq, Eq)]
pub struct SpawnError {
    pub command: String,
    pub args: Vec<String>,
    pub retried: bool,
    pub detail: String,
}

/// What follows a failed attempt.
#[derive(Debug, PartialEq, Eq)]
pub enum SpawnStep {
    /// Try this request next.
    Retry(SpawnRequest),
    /// Give up and report this error.
    Fail(SpawnError),
}

/// The three standard streams of a process.
#[derive(Clone, Copy, Debug, PartialEq, Eq)]
pub enum Stream {
    Stdin,
    Stdout,
    Stderr,
}

/// A process that is ready to be filed in the registry, with the two streams
/// that its pumps will read.
pub struct Spawned<C, I, O, E> {
    pub id: String,
    pub process: ManagedProcess<C, I>,
    pub stdout: O,
    pub stderr: E,
}

/// What `shell_words::join` returns for `words`.
pub uninterp spec fn shell_joined(words: Seq<Seq<char>>) -> Seq<char>;

/// What formatting a list of strings with `{:?}` gives.
pub uninterp spec fn debug_formatted(items: Seq<Seq<char>>) -> Seq<char>;

/// `shell_words::join`: one command line for a Unix shell in which every word
/// is quoted so that it keeps its literal meaning. The quoting style is the
/// outside crate's; the result depends on the words alone.
#[verifier::external_body]
fn join_words(words: &Vec<String>) -> (line: String)
    ensures
        line@ == shell_joined(texts(words@)),
{
    shell_words::join(words)
}

/// The `Debug` form of a list of strings, as the standard library writes it.
/// The result depends on the strings alone.
#[verifier::external_body]
fn debug_list(items: &Vec<String>) -> (text: String)
    ensures
        text@ == debug_formatted(texts(items@)),
{
    format!("{:?}", items)
}

/// `uuid::Uuid::new_v4` written out by its `Display`: a random version 4
/// UUID in lower-case hyphenated form. Which one is left open; the call aborts
/// if the operating system cannot supply random bytes.
#[verifier::external_body]
fn fresh_process_id() -> (id: String)
    ensures
        is_process_id(id@),
{
    uuid::Uuid::new_v4().to_string()
}

/// A lower-case hexadecimal digit.
pub open spec fn is_hex_digit(c: char) -> bool {
    ('0' <= c && c <= '9') || ('a' <= c && c <= 'f')
}

/// The shape of every generated process identifier: 36 characters, hyphens
/// after the 8th, 12th, 16th and 20th digit, lower-case hexadecimal digits
/// elsewhere, with the version digit `4` and a variant digit of `8` to `b`.
pub open spec fn is_process_id(id: Seq<char>) -> bool {
    &&& id.len() == 36
    &&& forall|i: int|
        0 <= i < 36 ==> if i == 8 || i == 13 || i == 18 || i == 23 {
            id[i] == '-'
        } else {
            is_hex_digit(#[trigger] id[i])
        }
    &&& id[14] == '4'
    &&& id[19] == '8' || id[19] == '9' || id[19] == 'a' || id[19] == 'b'
}

/// The shell through which a command is retried on `platform`.
pub open spec fn fallback_command(platform: Platform) -> Seq<char> {
    match platform {
        Platform::Windows => "cmd.exe"@,
        Platform::Unix => "sh"@,
    }
}

/// The arguments with which that shell runs `command` with `args`: on
/// Windows the command line word by word after `/c`, elsewhere the whole
/// command line as one shell-quoted word after `-c`.
pub open spec fn fallback_args(platform: Platform, command: Seq<char>, args: Seq<Seq<char>>) -> Seq<
    Seq<char>,
> {
    match platform {
        Platform::Windows => seq!["/c"@, command] + args,
        Platform::Unix => seq!["-c"@, shell_joined(seq![command] + args)],
    }
}

/// The text of a spawn error.
pub open spec fn spawn_error_text(
    retried: bool,
    command: Seq<char>,
    args: Seq<Seq<char>>,
    detail: Seq<char>,
) -> Seq<char> {
    (if retried {
        "Failed to start process on retry (cmd: '"@
    } else {
        "Failed to start process (cmd: '"@
    }) + command + "', args: "@ + debug_formatted(args) + "): "@ + detail
}

/// The text with which a missing stream is reported.
pub open spec fn capture_failure_text(stream: Stream) -> Seq<char> {
    match stream {
        Stream::Stdin => "Failed to capture stdin"@,
        Stream::Stdout => "Failed to capture stdout"@,
        Stream::Stderr => "Failed to capture stderr"@,
    }
}

impl SpawnError {
    /// The message for the caller: which command line failed, whether it was
    /// the retry, and why.
    pub fn message(&self) -> (text: String)
        ensures
            text@ == spawn_error_text(self.retried, self.command@, texts(self.args@), self.detail@),
    {
        let mut text = if self.retried {
            String::from_str("Failed to start process on retry (cmd: '")
        } else {
            String::from_str("Failed to start process (cmd: '")
        };
        text.append(self.command.as_str());
        text.append("', args: ");
        let listed = debug_list(&self.args);
        text.append(listed.as_str());
        text.append("): ");
        text.append(self.detail.as_str());
        text
    }
}

/// A copy of `words` behind the words of `head`.
fn extended(head: Vec<String>, words: &Vec<String>) -> (all: Vec<String>)
    ensures
        texts(all@) == texts(head@) + texts(words@),
{
    let mut all = head;
    let ghost start = texts(all@);
    let mut i: usize = 0;
    while i < words.len()
        invariant
            i <= words.len(),
            texts(all@) == start + texts(words@.subrange(0, i as int)),
        decreases words.len() - i,
    {
        let ghost before = all@;
        let word = words[i].clone();
        all.push(word);
        proof {
            assert(texts(all@) =~= texts(before).push(word@));
            assert(texts(words@.subrange(0, i + 1)) =~= texts(words@.subrange(0, i as int)).push(
                words@[i as int]@,
            ));
        }
        i = i + 1;
    }
    proof {
        assert(words@.subrange(0, i as int) =~= words@);
    }
    all
}

/// The command line through which `command` with `args` is retried on
/// `platform`: the shell and its arguments.
pub fn platform_fallback(platform: Platform, command: &str, args: &Vec<String>) -> (shell: (
    String,
    Vec<String>,
))
    ensures
        shell.0@ == fallback_command(platform),
        texts(shell.1@) == fallback_args(platform, command@, texts(args@)),
{
    match platform {
        Platform::Windows => {
            let mut head: Vec<String> = Vec::new();
            head.push(String::from_str("/c"));
            head.push(String::from_str(command));
            proof {
                assert(texts(head@) =~= seq!["/c"@, command@]);
            }
            (String::from_str("cmd.exe"), extended(head, args))
        },
        Platform::Unix => {
            let mut head: Vec<String> = Vec::new();
            head.push(String::from_str(command));
            proof {
                assert(texts(head@) =~= seq![command@]);
            }
            let line = join_words(&extended(head, args));
            let mut shell_args: Vec<String> = Vec::new();
            shell_args.push(String::from_str("-c"));
            shell_args.push(line);
            proof {
                assert(texts(shell_args@) =~= seq!["-c"@, line@]);
            }
            (String::from_str("sh"), shell_args)
        },
    }
}

/// What follows when the operating system failed to start `request`.
///
/// An unresolved command is retried once through the platform's shell. Any
/// other failure, and any failure of the retry, ends the spawn with an error
/// that names the command line that was tried last.
pub fn start_external_process(platform: Platform, request: SpawnRequest, failure: SpawnFailure) -> (step:
    SpawnStep)
    ensures
        request.attempt is First && failure.not_found ==> {
            &&& step matches SpawnStep::Retry(next)
            &&& next.attempt is Fallback
            &&& next.command@ == fallback_command(platform)
            &&& texts(next.args@) == fallback_args(platform, request.command@, texts(request.args@))
        },
        !(request.attempt is First && failure.not_found) ==> {
            &&& step matches SpawnStep::Fail(error)
            &&& error.command == request.command
            &&& error.args == request.args
            &&& error.retried == (request.attempt is Fallback)
            &&& error.detail == failure.detail
        },
{
    let first = match request.attempt {
        Attempt::First => true,
        Attempt::Fallback => false,
    };
    if first && failure.not_found {
        let (command, args) = platform_fallback(platform, request.command.as_str(), &request.args);
        SpawnStep::Retry(SpawnRequest { command, args, attempt: Attempt::Fallback })
    } else {
        SpawnStep::Fail(
            SpawnError {
                command: request.command,
                args: request.args,
                retried: !first,
                detail: failure.detail,
            },
        )
    }
}

/// The failure that reports `stream` as missing. It is never retried.
pub fn capture_failure(stream: Stream) -> (failure: SpawnFailure)
    ensures
        !failure.not_found,
        failure.detail@ == capture_failure_text(stream),
{
    let detail = match stream {
        Stream::Stdin => String::from_str("Failed to capture stdin"),
        Stream::Stdout => String::from_str("Failed to capture stdout"),
        Stream::Stderr => String::from_str("Failed to capture stderr"),
    };
    SpawnFailure { not_found: false, detail }
}

/// The first of the three streams that is missing, in the order input,
/// output, diagnostics.
pub open spec fn first_missing<I, O, E>(stdin: Option<I>, stdout: Option<O>, stderr: Option<E>) -> Option<
    Stream,
> {
    if stdin is None {
        Some(Stream::Stdin)
    } else if stdout is None {
        Some(Stream::Stdout)
    } else if stderr is None {
        Some(Stream::Stderr)
    } else {
        None
    }
}

/// Takes charge of a process that the operating system has just created.
///
/// With all three streams in hand, the process gets a fresh identifier and a
/// record that owns its handle and its input stream, ready to be filed; the
/// two output streams come back for the pumps. With a stream missing, the
/// spawn has failed although the process exists: the handle comes back with
/// the failure, so that the process can be terminated.
pub fn manage_spawned<C, I, O, E>(
    child: C,
    stdin: Option<I>,
    stdout: Option<O>,
    stderr: Option<E>,
) -> (outcome: Result<Spawned<C, I, O, E>, (SpawnFailure, C)>)
    ensures
        match first_missing(stdin, stdout, stderr) {
            None => {
                &&& outcome matches Ok(spawned)
                &&& is_process_id(spawned.id@)
                &&& spawned.process == (ManagedProcess { child: Some(child), stdin })
                &&& Some(spawned.stdout) == stdout
                &&& Some(spawned.stderr) == stderr
            },
            Some(stream) => {
                &&& outcome matches Err(failed)
                &&& !failed.0.not_found
                &&& failed.0.detail@ == capture_failure_text(stream)
                &&& failed.1 == child
            },
        },
{
    match stdin {
        None => Err((capture_failure(Stream::Stdin), child)),
        Some(stdin) => match stdout {
            None => Err((capture_failure(Stream::Stdout), child)),
            Some(stdout) => match stderr {
                None => Err((capture_failure(Stream::Stderr), child)),
                Some(stderr) => {
                    let id = fresh_process_id();
                    let process = ManagedProcess::new(child).with_stdin(stdin);
                    Ok(Spawned { id, process, stdout, stderr })
                },
            },
        },
    }
}

} // verus!
