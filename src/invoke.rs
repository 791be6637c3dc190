use vstd::prelude::*;
use vstd::utf8::encode_utf8;

verus! {

/// What the native start function hands back: the runtime's exit code, and
/// the copy of the startup error message if it reported one.
#[derive(Clone, Debug, PartialEq, Eq)]
pub struct RunOutcome {
    pub exit_code: i32,
    pub error: Option<String>,
}

/// Why the runtime can no longer be used.
#[derive(Clone, Debug, PartialEq, Eq)]
pub enum Failure {
    /// The runtime reported an error while starting; it is never retried.
    StartupFailure(String),
    /// The runtime that serves the published task channel returned control
    /// with this exit code: the published handle is dangling.
    RuntimeClosed(i32),
}

/// Whether the UTF-8 encoding of `s` holds a zero byte, which a C string
/// cannot carry.
pub open spec fn has_nul(s: Seq<char>) -> bool {
    exists|i: int| 0 <= i < encode_utf8(s).len() && encode_utf8(s)[i] == 0u8
}

/// The process argument handed to the runtime for the host argument `s`:
/// `s` itself, or the empty string where `s` cannot be a C string.
pub open spec fn forwarded(s: Seq<char>) -> Seq<char> {
    if has_nul(s) {
        Seq::empty()
    } else {
        s
    }
}

/// The argument vector that starts the runtime serving the task channel: the
/// host executable, then a one-line script that loads the linked binding,
/// which makes the registration bridge fire.
pub open spec fn bootstrap_argv(exe: Option<Seq<char>>) -> Seq<Seq<char>> {
    seq![
        match exe {
            Some(e) => e,
            None => "node"@,
        },
        "-e"@,
        "process._linkedBinding('__rust_init')"@,
    ]
}

/// Forwards one host argument; see `forwarded`.
pub fn forward_arg(arg: &String) -> (r: String)
    ensures
        r@ == forwarded(arg@),
{
    let bytes = arg.as_str().as_bytes();
    let mut i: usize = 0;
    while i < bytes.len()
        invariant
            bytes@ == encode_utf8(arg@),
            0 <= i <= bytes@.len(),
            forall|j: int| 0 <= j < i ==> bytes@[j] != 0u8,
        decreases bytes@.len() - i,
    {
        if bytes[i] == 0u8 {
            return String::new();
        }
        i = i + 1;
    }
    arg.clone()
}

/// The host's process arguments as the runtime gets them: one for one, in
/// order, each forwarded verbatim when it can be.
pub fn forward_args(args: &Vec<String>) -> (r: Vec<String>)
    ensures
        r@.len() == args@.len(),
        forall|i: int| 0 <= i < args@.len() ==> #[trigger] r@[i]@ == forwarded(args@[i]@),
{
    let mut r: Vec<String> = Vec::new();
    let mut i: usize = 0;
    while i < args.len()
        invariant
            0 <= i <= args@.len(),
            r@.len() == i,
            forall|j: int| 0 <= j < i ==> #[trigger] r@[j]@ == forwarded(args@[j]@),
        decreases args@.len() - i,
    {
        r.push(forward_arg(&args[i]));
        i = i + 1;
    }
    r
}

/// The argument vector that starts the runtime serving the task channel,
/// from the path of the host executable when it is known.
pub fn bootstrap_args(exe: Option<String>) -> (r: Vec<String>)
    ensures
        r@.len() == 3,
        forall|i: int|
            0 <= i < 3 ==> #[trigger] r@[i]@ == bootstrap_argv(
                match exe {
                    Some(e) => Some(e@),
                    None => None,
                },
            )[i],
{
    let argv0 = match exe {
        Some(e) => e,
        None => "node".to_owned(),
    };
    let mut r: Vec<String> = Vec::new();
    r.push(argv0);
    r.push("-e".to_owned());
    r.push("process._linkedBinding('__rust_init')".to_owned());
    r
}

/// The result of the run-once mode: the runtime's exit code, or the startup
/// error it reported.
pub fn run_result(outcome: RunOutcome) -> (r: Result<i32, Failure>)
    ensures
        outcome.error is None ==> r == Ok::<i32, Failure>(outcome.exit_code),
        outcome.error is Some ==> r == Err::<i32, Failure>(
            Failure::StartupFailure(outcome.error->Some_0),
        ),
{
    match outcome.error {
        Some(m) => Err(Failure::StartupFailure(m)),
        None => Ok(outcome.exit_code),
    }
}

/// Why the runtime serving the task channel is gone, once its start function
/// returned: any return is fatal there.
pub fn closed_failure(outcome: RunOutcome) -> (f: Failure)
    ensures
        outcome.error is None ==> f == Failure::RuntimeClosed(outcome.exit_code),
        outcome.error is Some ==> f == Failure::StartupFailure(outcome.error->Some_0),
{
    match outcome.error {
        Some(m) => Failure::StartupFailure(m),
        None => Failure::RuntimeClosed(outcome.exit_code),
    }
}

} // verus!
