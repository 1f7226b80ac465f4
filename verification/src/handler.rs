//! The `lastcmd` command: what the shell is asked to run, given the previous
//! history entry and the command's one argument.

use crate::expand::{contains_token, expand, expand_spec, lemma_expand_without_token};
use crate::pieces::{join, lemma_expand_joined, split_at_tokens, token};
use crate::text::{decode, decode_lossy, lossy_text};
use crate::SUCCESS;
use vstd::prelude::*;
use vstd::utf8::{decode_utf8, valid_utf8};

verus! {

/// A command line for the shell's interpreter, with the arguments of the call
/// that runs it.
#[derive(Debug, PartialEq, Eq)]
pub struct ExecRequest {
    /// The command line to parse and run.
    pub command: String,
    /// Non-zero: the interpreter leaves the current job as it is.
    pub dont_change_job: i32,
    /// Non-zero: the shell exits once the command has run.
    pub exiting: i32,
    /// The name of the context the command runs in; `None` for a command at
    /// the top level.
    pub context: Option<String>,
}

/// An [`ExecRequest`] as mathematical values.
pub struct ExecRequestView {
    pub command: Seq<char>,
    pub dont_change_job: i32,
    pub exiting: i32,
    pub context: Option<Seq<char>>,
}

impl View for ExecRequest {
    type V = ExecRequestView;

    open spec fn view(&self) -> ExecRequestView {
        ExecRequestView {
            command: self.command@,
            dont_change_job: self.dont_change_job,
            exiting: self.exiting,
            context: match self.context {
                Some(name) => Some(name@),
                None => None,
            },
        }
    }
}

/// What the handler does on one invocation.
#[derive(Debug, PartialEq, Eq)]
pub struct Dispatch {
    /// The command to hand to the interpreter; `None` where nothing is run.
    pub request: Option<ExecRequest>,
    /// The status the handler returns to the shell.
    pub status: i32,
}

/// A [`Dispatch`] as mathematical values.
pub struct DispatchView {
    pub request: Option<ExecRequestView>,
    pub status: i32,
}

impl View for Dispatch {
    type V = DispatchView;

    open spec fn view(&self) -> DispatchView {
        DispatchView {
            request: match self.request {
                Some(request) => Some(request@),
                None => None,
            },
            status: self.status,
        }
    }
}

/// Why the handler could not tell what to run.
#[derive(Clone, Copy, Debug, PartialEq, Eq)]
pub enum HandlerError {
    /// The argument is not valid UTF-8.
    MalformedTemplate,
}

/// The request that runs `command` as a new command at the top level: the
/// current job is left alone, the shell does not exit, no context is named.
pub open spec fn top_level(command: Seq<char>) -> ExecRequestView {
    ExecRequestView { command, dont_change_job: 1, exiting: 0, context: None }
}

/// What the handler does with the text of the previous history entry, if there
/// is one, and the template: without an entry nothing is run; with one, the
/// expanded template is run at the top level. The status is success either
/// way, whatever becomes of the command.
pub open spec fn dispatch_spec(previous: Option<Seq<char>>, template: Seq<char>) -> DispatchView {
    DispatchView {
        request: match previous {
            Some(command) => Some(top_level(expand_spec(template, command))),
            None => None,
        },
        status: SUCCESS,
    }
}

/// The text of a history entry as the handler reads it: the entry decoded
/// where it is valid UTF-8, and otherwise what a lenient decoding makes of it.
pub open spec fn entry_text(entry: Seq<u8>) -> Seq<char> {
    if valid_utf8(entry) {
        decode_utf8(entry)
    } else {
        lossy_text(entry)
    }
}

/// What the handler does with the previous history entry and the argument as
/// the shell holds them, in bytes. Without an entry nothing is run and the
/// argument is not looked at. With one, the argument must be valid UTF-8, and
/// the text it encodes is the template.
pub open spec fn lastcmd_spec(previous: Option<Seq<u8>>, template: Seq<u8>) -> Result<
    DispatchView,
    HandlerError,
> {
    match previous {
        None => Ok(dispatch_spec(None, Seq::empty())),
        Some(entry) => if valid_utf8(template) {
            Ok(dispatch_spec(Some(entry_text(entry)), decode_utf8(template)))
        } else {
            Err(HandlerError::MalformedTemplate)
        },
    }
}

/// The text of an optional string slice.
pub open spec fn text_of(text: Option<&str>) -> Option<Seq<char>> {
    match text {
        Some(text) => Some(text@),
        None => None,
    }
}

/// The bytes of an optional byte slice.
pub open spec fn bytes_of(bytes: Option<&[u8]>) -> Option<Seq<u8>> {
    match bytes {
        Some(bytes) => Some(bytes@),
        None => None,
    }
}

/// Decides what to run for the template, given the previous command.
pub fn dispatch(previous: Option<&str>, template: &str) -> (outcome: Dispatch)
    ensures
        outcome@ == dispatch_spec(text_of(previous), template@),
{
    match previous {
        Some(command) => {
            let request = ExecRequest {
                command: expand(template, command),
                dont_change_job: 1,
                exiting: 0,
                context: None,
            };
            Dispatch { request: Some(request), status: SUCCESS }
        },
        None => Dispatch { request: None, status: SUCCESS },
    }
}

/// The handler of `lastcmd`, on the bytes of the previous history entry (`None`
/// where the history has none) and of the command's argument.
pub fn lastcmd(previous: Option<&[u8]>, template: &[u8]) -> (outcome: Result<
    Dispatch,
    HandlerError,
>)
    ensures
        match lastcmd_spec(bytes_of(previous), template@) {
            Ok(dispatch) => outcome matches Ok(made) && made@ == dispatch,
            Err(error) => outcome == Err::<Dispatch, HandlerError>(error),
        },
{
    match previous {
        None => Ok(dispatch(None, "")),
        Some(entry) => {
            let command = decode_lossy(entry);
            match decode(template) {
                Some(text) => Ok(dispatch(Some(command.as_str()), text)),
                None => Err(HandlerError::MalformedTemplate),
            }
        },
    }
}

/// With a previous command and a template that holds no token, the template
/// itself is run.
pub proof fn lemma_template_without_token_runs_verbatim(
    previous: Seq<char>,
    template: Seq<char>,
)
    requires
        !contains_token(template),
    ensures
        dispatch_spec(Some(previous), template).request == Some(top_level(template)),
{
    lemma_expand_without_token(template, previous);
}

/// With a previous command, what is run is the template with each token
/// replaced by that command and the text between the tokens unchanged.
pub proof fn lemma_tokens_become_previous_command(
    previous: Seq<char>,
    pieces: Seq<Seq<char>>,
)
    requires
        split_at_tokens(pieces),
    ensures
        dispatch_spec(Some(previous), join(pieces, token())).request == Some(
            top_level(join(pieces, previous)),
        ),
{
    lemma_expand_joined(pieces, previous);
}

/// Without a previous command nothing is run and the handler reports success,
/// whatever the template.
pub proof fn lemma_empty_history_runs_nothing(template: Seq<char>)
    ensures
        dispatch_spec(None, template).request is None,
        dispatch_spec(None, template).status == SUCCESS,
{
}

} // verus!
