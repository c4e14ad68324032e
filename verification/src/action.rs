//! What the application asks of the outside after a message.

use crate::picker::{FileFilter, FileFilterModel};
use vstd::prelude::*;

verus! {

/// One request to the outside. The caller carries it out; what comes of it
/// returns, if at all, as a later message.
#[derive(Debug, PartialEq, Eq)]
pub enum Action {
    /// Nothing to do.
    Nothing,
    /// Let this surface take the whole screen.
    Fullscreen(iced::window::Id),
    /// Open the file dialog with this filter, and report the outcome with
    /// `Message::from_picked`.
    PickFile(FileFilter),
}

/// An action as the contracts see it.
pub enum ActionModel {
    Nothing,
    Fullscreen(iced::window::Id),
    PickFile(FileFilterModel),
}

impl View for Action {
    type V = ActionModel;

    open spec fn view(&self) -> ActionModel {
        match self {
            Action::Nothing => ActionModel::Nothing,
            Action::Fullscreen(surface) => ActionModel::Fullscreen(*surface),
            Action::PickFile(filter) => ActionModel::PickFile(filter@),
        }
    }
}

} // verus!
