//! What a call hands back to the display layer.
//!
//! A call runs in at most two steps. The renderer is launched and waited
//! for; then, where the image travels inline, its file is read back. The
//! caller performs each step and reports how it went; the functions here
//! decide what follows, and what string the display layer receives in the
//! end.

use vstd::prelude::*;
use vstd::string::StringExecFns;
use crate::command::Delivery;
use crate::encoding::{
    encodable_len,
    encode_standard,
    is_alphabet_char,
    is_padding_position,
    lemma_base64_well_formed,
    standard_base64,
};

verus! {

/// How the attempt to run the renderer went.
#[derive(Debug, PartialEq, Eq)]
pub enum LaunchOutcome {
    /// The renderer could not be started.
    Failed,
    /// The renderer ran to its end; the text is its exit status as the
    /// platform displays it.
    Exited(String),
}

/// What the caller does after the renderer was launched.
#[derive(Debug, PartialEq, Eq)]
pub enum Step {
    /// Give the call up: it has no result.
    Abort,
    /// Return this string to the display layer.
    Reply(String),
    /// Read the file at this path, then ask [`image_reply`].
    ReadImage(String),
}

/// How the attempt to read the image file went.
#[derive(Debug, PartialEq, Eq)]
pub enum ReadOutcome {
    /// The file could not be opened; the text is the system's reason.
    OpenFailed(String),
    /// The file was opened but not read to its end; the text is the
    /// system's reason.
    ReadFailed(String),
    /// The whole content of the file.
    Contents(Vec<u8>),
}

/// The message for a file that could not be opened.
pub open spec fn open_error_text(reason: Seq<char>) -> Seq<char> {
    "Error opening file: "@ + reason
}

/// The message for a file that could not be read.
pub open spec fn read_error_text(reason: Seq<char>) -> Seq<char> {
    "Error reading file: "@ + reason
}

/// The string that the display layer receives for a read attempt.
pub open spec fn image_reply_text(read: ReadOutcome) -> Seq<char> {
    match read {
        ReadOutcome::OpenFailed(reason) => open_error_text(reason@),
        ReadOutcome::ReadFailed(reason) => read_error_text(reason@),
        ReadOutcome::Contents(bytes) => standard_base64(bytes@),
    }
}

/// Decides what follows the launch of the renderer.
///
/// A renderer that could not be started ends the call without a result,
/// whatever the delivery. Otherwise the exit status is the reply, or, for
/// inline delivery, the image file is to be read; the status is not looked
/// at, so a renderer that exits with an error is not told apart from one
/// that succeeds.
pub fn after_launch(delivery: Delivery, outcome: LaunchOutcome) -> (step: Step)
    ensures
        match outcome {
            LaunchOutcome::Failed => step is Abort,
            LaunchOutcome::Exited(status) => match delivery {
                Delivery::ExitStatus => step matches Step::Reply(text) && text@ == status@,
                Delivery::InlineImage => step matches Step::ReadImage(path) && path@
                    == delivery.path_text(),
            },
        },
{
    match outcome {
        LaunchOutcome::Failed => Step::Abort,
        LaunchOutcome::Exited(status) => match delivery {
            Delivery::ExitStatus => Step::Reply(status),
            Delivery::InlineImage => Step::ReadImage(String::from_str(delivery.output_path())),
        },
    }
}

/// The reply of a call with inline delivery: the base64 text of the image,
/// or a message that says why there is none.
pub fn image_reply(read: ReadOutcome) -> (reply: String)
    requires
        read matches ReadOutcome::Contents(bytes) ==> encodable_len(bytes@.len()),
    ensures
        reply@ == image_reply_text(read),
{
    match read {
        ReadOutcome::OpenFailed(reason) => String::from_str("Error opening file: ").concat(
            reason.as_str(),
        ),
        ReadOutcome::ReadFailed(reason) => String::from_str("Error reading file: ").concat(
            reason.as_str(),
        ),
        ReadOutcome::Contents(bytes) => encode_standard(&bytes),
    }
}

/// A message about a failed read is never mistaken for an image: no file has
/// it as its base64 text.
pub proof fn lemma_error_is_no_payload(reason: Seq<char>, bytes: Seq<u8>)
    ensures
        open_error_text(reason) != standard_base64(bytes),
        read_error_text(reason) != standard_base64(bytes),
{
    reveal_strlit("Error opening file: ");
    reveal_strlit("Error reading file: ");
    lemma_base64_well_formed(bytes);
    let text = standard_base64(bytes);
    assert(open_error_text(reason)[5] == ' ');
    assert(read_error_text(reason)[5] == ' ');
    if 5 < text.len() {
        assert(text[5] != ' ') by {
            if !is_padding_position(bytes, 5) {
                assert(is_alphabet_char(text[5]));
            }
        }
    }
}

} // verus!
