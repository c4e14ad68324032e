//! The messages that drive the application.

use vstd::prelude::*;

verus! {

/// Everything that can happen to the application: what the user did in the
/// editor window, and what came back from the outside.
#[derive(Debug, PartialEq, Eq)]
pub enum Message {
    /// Both windows exist now.
    Initialize,
    /// Show the picture at this path.
    UpdateBackgroundPath(String),
    /// Show no picture.
    ResetBackgroundPath,
    /// The user asked for the file dialog.
    OpenFilePicker,
    /// The file dialog went away without a choice.
    CloseFilePicker,
}

impl Clone for Message {
    /// A copy of the message, with a copy of its path where it has one.
    fn clone(&self) -> (copy: Message)
        ensures
            copy == *self,
    {
        match self {
            Message::Initialize => Message::Initialize,
            Message::UpdateBackgroundPath(path) => Message::UpdateBackgroundPath(path.clone()),
            Message::ResetBackgroundPath => Message::ResetBackgroundPath,
            Message::OpenFilePicker => Message::OpenFilePicker,
            Message::CloseFilePicker => Message::CloseFilePicker,
        }
    }
}

/// A message as the contracts see it: paths are sequences of characters.
pub enum MessageModel {
    Initialize,
    UpdateBackgroundPath(Seq<char>),
    ResetBackgroundPath,
    OpenFilePicker,
    CloseFilePicker,
}

impl View for Message {
    type V = MessageModel;

    open spec fn view(&self) -> MessageModel {
        match self {
            Message::Initialize => MessageModel::Initialize,
            Message::UpdateBackgroundPath(path) => MessageModel::UpdateBackgroundPath(path@),
            Message::ResetBackgroundPath => MessageModel::ResetBackgroundPath,
            Message::OpenFilePicker => MessageModel::OpenFilePicker,
            Message::CloseFilePicker => MessageModel::CloseFilePicker,
        }
    }
}

/// The message that a finished file dialog stands for: the chosen path is to be
/// shown; no choice, for whatever reason, closes the dialog and changes nothing.
pub open spec fn picked(choice: Option<Seq<char>>) -> MessageModel {
    match choice {
        Some(path) => MessageModel::UpdateBackgroundPath(path),
        None => MessageModel::CloseFilePicker,
    }
}

impl Message {
    /// Turns the outcome of the file dialog into the message that reports it.
    pub fn from_picked(choice: Option<String>) -> (message: Message)
        ensures
            message@ == picked(
                match choice {
                    Some(path) => Some(path@),
                    None => None,
                },
            ),
            choice matches Some(path) ==> message == Message::UpdateBackgroundPath(path),
    {
        match choice {
            Some(path) => Message::UpdateBackgroundPath(path),
            None => Message::CloseFilePicker,
        }
    }
}

} // verus!
