//! A run of the `pi` command: how it is started, and what it comes to.

use crate::text::{from_utf8, from_utf8_lossy, trimmed, utf8_error, utf8_lossy};
use vstd::prelude::*;
use vstd::utf8::{
    decode_utf8, decode_utf8_encode_utf8, encode_utf8, encode_utf8_decode_utf8,
    encode_utf8_valid_utf8, valid_utf8,
};

verus! {

/// The command that is run.
pub const PROGRAM: &'static str = "pi";

/// How long a run may take, in seconds.
pub const TIMEOUT_SECONDS: u64 = 300;

/// What `pi` is told about its task.
pub const SYSTEM_PROMPT: &'static str = r#"You are an inline code transformation engine. Respond with exactly one JSON object and no Markdown fences or prose: {"replacement":"the complete replacement snippet"}. The replacement must contain the entire code snippet, including unchanged code. Apply the user's latest request while respecting the prior conversation. Never edit files or return a patch."#;

/// The arguments of the command.
pub fn arguments() -> (r: Vec<&'static str>)
    ensures
        r@.map_values(|a: &'static str| a@) == seq![
            "--print"@,
            "--no-session"@,
            "--no-tools"@,
            "--no-extensions"@,
            "--no-skills"@,
            "--no-prompt-templates"@,
            "--no-context-files"@,
            "--system-prompt"@,
            SYSTEM_PROMPT@,
        ],
        r@.last()@ == r#"You are an inline code transformation engine. Respond with exactly one JSON object and no Markdown fences or prose: {"replacement":"the complete replacement snippet"}. The replacement must contain the entire code snippet, including unchanged code. Apply the user's latest request while respecting the prior conversation. Never edit files or return a patch."#@,
{
    let r: Vec<&'static str> = vec![
        "--print",
        "--no-session",
        "--no-tools",
        "--no-extensions",
        "--no-skills",
        "--no-prompt-templates",
        "--no-context-files",
        "--system-prompt",
        SYSTEM_PROMPT,
    ];
    assert(r@.map_values(|a: &'static str| a@) =~= seq![
        "--print"@,
        "--no-session"@,
        "--no-tools"@,
        "--no-extensions"@,
        "--no-skills"@,
        "--no-prompt-templates"@,
        "--no-context-files"@,
        "--system-prompt"@,
        SYSTEM_PROMPT@,
    ]);
    r
}

/// How a run ended. A text that a variant holds describes the cause.
#[derive(Debug, PartialEq, Eq)]
pub enum RunEnd {
    /// The process could not be started.
    StartFailed(String),
    /// The request could not be written to the process.
    SendFailed(String),
    /// The process did not end in time.
    TimedOut(String),
    /// Waiting for the process failed.
    WaitFailed(String),
    /// The process ended, with `status` as the description of its exit
    /// status, and wrote `stdout` and `stderr`.
    Exited { success: bool, status: String, stdout: Vec<u8>, stderr: Vec<u8> },
}

/// Why a run of `pi` gave no replacement. A text that a variant holds is the
/// description of the cause below it.
#[derive(Debug, PartialEq, Eq)]
pub enum PiError {
    /// The process could not be started.
    Start(String),
    /// The request could not be written to the process.
    Send(String),
    /// The process did not end in time.
    TimedOut(String),
    /// Waiting for the process failed.
    Wait(String),
    /// The process ended with a failure. `stderr` is what it wrote to its
    /// standard error, without white space at either end.
    Exit { status: String, stderr: String },
    /// The output is not UTF-8.
    NotUtf8(String),
    /// The output holds no opening brace.
    NoObject,
    /// The output holds no closing brace.
    Incomplete,
    /// What stands between the braces is no object with a replacement.
    Invalid(String),
}

/// The content of a [`PiError`].
pub enum PiErrorView {
    Start(Seq<char>),
    Send(Seq<char>),
    TimedOut(Seq<char>),
    Wait(Seq<char>),
    Exit { status: Seq<char>, stderr: Seq<char> },
    NotUtf8(Seq<char>),
    NoObject,
    Incomplete,
    Invalid(Seq<char>),
}

impl View for PiError {
    type V = PiErrorView;

    open spec fn view(&self) -> PiErrorView {
        match self {
            PiError::Start(e) => PiErrorView::Start(e@),
            PiError::Send(e) => PiErrorView::Send(e@),
            PiError::TimedOut(e) => PiErrorView::TimedOut(e@),
            PiError::Wait(e) => PiErrorView::Wait(e@),
            PiError::Exit { status, stderr } => PiErrorView::Exit {
                status: status@,
                stderr: stderr@,
            },
            PiError::NotUtf8(e) => PiErrorView::NotUtf8(e@),
            PiError::NoObject => PiErrorView::NoObject,
            PiError::Incomplete => PiErrorView::Incomplete,
            PiError::Invalid(e) => PiErrorView::Invalid(e@),
        }
    }
}

impl PiErrorView {
    /// The error with its causes, on one line.
    pub open spec fn message(self) -> Seq<char> {
        match self {
            PiErrorView::Start(e) => "could not start `pi`: "@ + e,
            PiErrorView::Send(e) => "could not send the request to pi: "@ + e,
            PiErrorView::TimedOut(e) => "pi did not respond within five minutes: "@ + e,
            PiErrorView::Wait(e) => e,
            PiErrorView::Exit { status, stderr } => if stderr.len() == 0 {
                "pi exited with "@ + status
            } else {
                "pi exited with "@ + status + ": "@ + stderr
            },
            PiErrorView::NotUtf8(e) => "pi returned non-UTF-8 output: "@ + e,
            PiErrorView::NoObject => "pi returned no JSON object"@,
            PiErrorView::Incomplete => "pi returned incomplete JSON"@,
            PiErrorView::Invalid(e) => "pi returned invalid replacement JSON: "@ + e,
        }
    }
}

/// `prefix` followed by `rest`.
pub(crate) fn joined(prefix: &str, rest: &str) -> (r: String)
    ensures
        r@ == prefix@ + rest@,
{
    let mut s: String = prefix.to_owned();
    s.append(rest);
    s
}

impl PiError {
    /// The error with its causes, on one line.
    pub fn message(&self) -> (r: String)
        ensures
            r@ == self@.message(),
    {
        match self {
            PiError::Start(e) => joined("could not start `pi`: ", e.as_str()),
            PiError::Send(e) => joined("could not send the request to pi: ", e.as_str()),
            PiError::TimedOut(e) => joined("pi did not respond within five minutes: ", e.as_str()),
            PiError::Wait(e) => e.clone(),
            PiError::Exit { status, stderr } => {
                let mut s: String = joined("pi exited with ", status.as_str());
                if !stderr.as_str().is_empty() {
                    s.append(": ");
                    s.append(stderr.as_str());
                }
                s
            },
            PiError::NotUtf8(e) => joined("pi returned non-UTF-8 output: ", e.as_str()),
            PiError::NoObject => "pi returned no JSON object".to_owned(),
            PiError::Incomplete => "pi returned incomplete JSON".to_owned(),
            PiError::Invalid(e) => joined("pi returned invalid replacement JSON: ", e.as_str()),
        }
    }
}

/// The content of a result.
pub open spec fn result_view(r: Result<String, PiError>) -> Result<Seq<char>, PiErrorView> {
    match r {
        Ok(s) => Ok(s@),
        Err(e) => Err(e@),
    }
}

impl RunEnd {
    /// The text that the run put out: the standard output of a process that
    /// succeeded, where that is UTF-8. A process that failed is reported with
    /// what it wrote to its standard error.
    pub open spec fn output(self) -> Result<Seq<char>, PiErrorView> {
        match self {
            RunEnd::StartFailed(e) => Err(PiErrorView::Start(e@)),
            RunEnd::SendFailed(e) => Err(PiErrorView::Send(e@)),
            RunEnd::TimedOut(e) => Err(PiErrorView::TimedOut(e@)),
            RunEnd::WaitFailed(e) => Err(PiErrorView::Wait(e@)),
            RunEnd::Exited { success, status, stdout, stderr } => if !success {
                Err(PiErrorView::Exit { status: status@, stderr: trimmed(utf8_lossy(stderr@)) })
            } else if valid_utf8(stdout@) {
                Ok(decode_utf8(stdout@))
            } else {
                Err(PiErrorView::NotUtf8(utf8_error(stdout@)))
            },
        }
    }
}

/// Reads what a run put out.
pub fn read_output(end: &RunEnd) -> (r: Result<String, PiError>)
    ensures
        result_view(r) == end.output(),
        *end matches RunEnd::Exited { success, status, stdout: _, stderr } ==> !success
            && valid_utf8(stderr@) ==> result_view(r) == Err::<Seq<char>, PiErrorView>(
            PiErrorView::Exit { status: status@, stderr: trimmed(decode_utf8(stderr@)) },
        ),
{
    match end {
        RunEnd::StartFailed(e) => Err(PiError::Start(e.clone())),
        RunEnd::SendFailed(e) => Err(PiError::Send(e.clone())),
        RunEnd::TimedOut(e) => Err(PiError::TimedOut(e.clone())),
        RunEnd::WaitFailed(e) => Err(PiError::Wait(e.clone())),
        RunEnd::Exited { success, status, stdout, stderr } => {
            if !*success {
                let text: String = from_utf8_lossy(stderr);
                return Err(
                    PiError::Exit {
                        status: status.clone(),
                        stderr: text.as_str().trim().to_owned(),
                    },
                );
            }
            match from_utf8(stdout.clone()) {
                Ok(text) => Ok(text),
                Err(e) => Err(PiError::NotUtf8(e)),
            }
        },
    }
}

/// Text that a successful run writes to its standard output is read as that
/// text, whatever it writes to its standard error.
pub proof fn successful_output_is_read_back(end: RunEnd, text: Seq<char>)
    requires
        end is Exited,
        end->success,
        end->stdout@ == encode_utf8(text),
    ensures
        end.output() == Ok::<Seq<char>, PiErrorView>(text),
{
    encode_utf8_valid_utf8(text);
    encode_utf8_decode_utf8(text);
}

/// Only a run that succeeds has an output.
pub proof fn only_a_successful_run_has_output(end: RunEnd)
    ensures
        end.output() is Ok ==> end is Exited && end->success,
{
}

/// Whether `message` is made of `what` and then all of `cause`.
pub open spec fn tells(message: Seq<char>, what: Seq<char>, cause: Seq<char>) -> bool {
    &&& message.len() == what.len() + cause.len()
    &&& what.is_prefix_of(message)
    &&& cause.is_suffix_of(message)
}

/// The message of an error says what failed and then its cause in full; a
/// process that failed without a word is reported with its exit status alone.
pub proof fn a_message_tells_what_failed_and_why(
    cause: Seq<char>,
    status: Seq<char>,
    stderr: Seq<char>,
)
    ensures
        tells(PiErrorView::Start(cause).message(), "could not start `pi`: "@, cause),
        tells(PiErrorView::Send(cause).message(), "could not send the request to pi: "@, cause),
        tells(
            PiErrorView::TimedOut(cause).message(),
            "pi did not respond within five minutes: "@,
            cause,
        ),
        tells(PiErrorView::Wait(cause).message(), Seq::empty(), cause),
        tells(PiErrorView::NotUtf8(cause).message(), "pi returned non-UTF-8 output: "@, cause),
        tells(
            PiErrorView::Invalid(cause).message(),
            "pi returned invalid replacement JSON: "@,
            cause,
        ),
        tells(PiErrorView::NoObject.message(), "pi returned no JSON object"@, Seq::empty()),
        tells(PiErrorView::Incomplete.message(), "pi returned incomplete JSON"@, Seq::empty()),
        tells(
            (PiErrorView::Exit { status, stderr: Seq::empty() }).message(),
            "pi exited with "@,
            status,
        ),
        stderr.len() > 0 ==> tells(
            (PiErrorView::Exit { status, stderr }).message(),
            (PiErrorView::Exit { status, stderr: Seq::empty() }).message() + ": "@,
            stderr,
        ),
{
}

/// The error of a run keeps what the run was reported with: the cause of a
/// failure to start, to send, to end in time or to wait; of a process that
/// failed, its exit status and its standard error without white space at
/// either end; of an output that is no text, why it is none.
pub proof fn an_error_keeps_its_cause(end: RunEnd)
    ensures
        end matches RunEnd::StartFailed(e) ==> end.output() == Err::<Seq<char>, PiErrorView>(
            PiErrorView::Start(e@),
        ),
        end matches RunEnd::SendFailed(e) ==> end.output() == Err::<Seq<char>, PiErrorView>(
            PiErrorView::Send(e@),
        ),
        end matches RunEnd::TimedOut(e) ==> end.output() == Err::<Seq<char>, PiErrorView>(
            PiErrorView::TimedOut(e@),
        ),
        end matches RunEnd::WaitFailed(e) ==> end.output() == Err::<Seq<char>, PiErrorView>(
            PiErrorView::Wait(e@),
        ),
        end matches RunEnd::Exited { success, status, stdout, stderr } ==> {
            &&& !success ==> (end.output() matches Err(PiErrorView::Exit { status: s, stderr: t })
                && s == status@ && t == trimmed(utf8_lossy(stderr@)))
            &&& success && valid_utf8(stdout@) ==> (end.output() matches Ok(text) && encode_utf8(
                text,
            ) == stdout@)
            &&& success && !valid_utf8(stdout@) ==> end.output() == Err::<Seq<char>, PiErrorView>(
                PiErrorView::NotUtf8(utf8_error(stdout@)),
            )
        },
{
    if end is Exited && valid_utf8(end->stdout@) {
        decode_utf8_encode_utf8(end->stdout@);
    }
}

/// The content of an error is its variant with the texts that it holds.
pub proof fn an_error_is_seen_as_it_is(e: PiError)
    ensures
        match e {
            PiError::Start(s) => e@ == PiErrorView::Start(s@),
            PiError::Send(s) => e@ == PiErrorView::Send(s@),
            PiError::TimedOut(s) => e@ == PiErrorView::TimedOut(s@),
            PiError::Wait(s) => e@ == PiErrorView::Wait(s@),
            PiError::Exit { status: s, stderr: t } => e@ == (PiErrorView::Exit {
                status: s@,
                stderr: t@,
            }),
            PiError::NotUtf8(s) => e@ == PiErrorView::NotUtf8(s@),
            PiError::NoObject => e@ == PiErrorView::NoObject,
            PiError::Incomplete => e@ == PiErrorView::Incomplete,
            PiError::Invalid(s) => e@ == PiErrorView::Invalid(s@),
        },
{
}

/// The content of a result is a text exactly where the result is one, and an
/// error else.
pub proof fn a_result_is_seen_as_it_is(r: Result<String, PiError>)
    ensures
        r matches Ok(s) ==> result_view(r) == Ok::<Seq<char>, PiErrorView>(s@),
        r matches Err(e) ==> result_view(r) == Err::<Seq<char>, PiErrorView>(e@),
{
}

} // verus!
