//! What a tool asks the bot to do once it has run, and what the bot does
//! when the tool failed.

use vstd::prelude::*;
use std::path::PathBuf;

verus! {

/// `std::path::PathBuf`, held opaque.
#[verifier::external_type_specification]
#[verifier::external_body]
pub struct ExPathBuf(PathBuf);

/// A file to send: one on disk, or bytes held in memory.
pub enum FileRep {
    Path(PathBuf),
    Raw(Vec<u8>),
}

/// The reply a tool asks for.
#[allow(inconsistent_fields)]
pub enum ToolCallAction {
    /// A plain text message.
    Message(String),
    /// A Markdown message (escaped before sending).
    MarkDown(String),
    /// A message with confirm and cancel buttons; the second value is the
    /// data of the confirm button.
    Confirm(String, String),
    /// A message with one button per item and a cancel button.
    List { msg: String, items: Vec<String> },
    /// A document, with an optional caption.
    File { msg: Option<String>, file: FileRep },
}

impl From<String> for ToolCallAction {
    fn from(value: String) -> (a: Self)
        ensures
            a == ToolCallAction::Message(value),
    {
        ToolCallAction::Message(value)
    }
}

impl vstd::std_specs::convert::FromSpecImpl<String> for ToolCallAction {
    open spec fn obeys_from_spec() -> bool {
        true
    }

    open spec fn from_spec(value: String) -> Self {
        ToolCallAction::Message(value)
    }
}

impl From<&str> for ToolCallAction {
    fn from(value: &str) -> (a: Self)
        ensures
            a matches ToolCallAction::Message(m) && m@ == value@,
    {
        ToolCallAction::Message(value.to_owned())
    }
}

// The conversion from `&str` copies the text into a new `String`; it is
// stated by the `ensures` of `from` above rather than by a spec value.
impl vstd::std_specs::convert::FromSpecImpl<&str> for ToolCallAction {
    open spec fn obeys_from_spec() -> bool {
        false
    }

    open spec fn from_spec(value: &str) -> Self {
        ToolCallAction::Message(arbitrary())
    }
}

/// The message sent when a tool failed.
pub open spec fn tool_error_reply() -> Seq<char> {
    "Ha habido un problema con su petición"@
}

/// The reply for the outcome of a tool: the action it asked for, or, when
/// it failed, a message saying that the request ran into a problem.
pub fn reply_for<E>(outcome: Result<ToolCallAction, E>) -> (a: ToolCallAction)
    ensures
        match outcome {
            Ok(action) => a == action,
            Err(_) => a matches ToolCallAction::Message(m) && m@ == tool_error_reply(),
        },
{
    match outcome {
        Ok(action) => action,
        Err(_) => ToolCallAction::Message(String::from_str("Ha habido un problema con su petición")),
    }
}

/// How a file is sent.
pub enum FileStep {
    /// The file on disk is missing: send this message instead.
    Apology(String),
    /// Send the file as a document, with the caption if any.
    Send { file: FileRep, caption: Option<String> },
}

/// The message sent in place of a file that does not exist.
pub open spec fn missing_file_reply() -> Seq<char> {
    "No puedo enviar el archivo ya que no existe internamente"@
}

/// Decides how a file is sent: a file on disk that does not exist
/// (`path_exists` is false) is replaced by an apology; otherwise the file
/// goes out with the caption.
pub fn file_step(file: FileRep, path_exists: bool, caption: Option<String>) -> (step: FileStep)
    ensures
        (file is Path && !path_exists) ==> (step matches FileStep::Apology(m) && m@
            == missing_file_reply()),
        !(file is Path && !path_exists) ==> step == (FileStep::Send { file, caption }),
{
    match file {
        FileRep::Path(path) => {
            if path_exists {
                FileStep::Send { file: FileRep::Path(path), caption }
            } else {
                FileStep::Apology(
                    String::from_str("No puedo enviar el archivo ya que no existe internamente"),
                )
            }
        },
        FileRep::Raw(data) => FileStep::Send { file: FileRep::Raw(data), caption },
    }
}

} // verus!
