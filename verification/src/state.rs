//! The application's state as the contracts see it, and how messages change it.

use crate::action::ActionModel;
use crate::history::{
    chosen_before, lemma_record_all_first_seen, lemma_record_extends, lemma_record_twice, record,
    record_all, Path,
};
use crate::message::MessageModel;
use crate::picker::supported_files;
use vstd::prelude::*;

verus! {

/// The state: the two windows, the picture on show, and the history.
pub struct AppModel {
    pub editor_window: iced::window::Id,
    pub background_surface: iced::window::Id,
    pub background_path: Option<Path>,
    pub history: Seq<Path>,
}

impl AppModel {
    /// The state at start: no picture, and nothing chosen yet.
    pub open spec fn initial(
        editor_window: iced::window::Id,
        background_surface: iced::window::Id,
    ) -> AppModel {
        AppModel {
            editor_window,
            background_surface,
            background_path: None,
            history: Seq::empty(),
        }
    }

    /// What holds of every state that the application reaches: the history
    /// repeats no path, and the picture on show is one of the history.
    pub open spec fn wf(self) -> bool {
        &&& self.history.no_duplicates()
        &&& self.background_path matches Some(path) ==> self.history.contains(path)
    }

    /// The state after one message.
    pub open spec fn after(self, message: MessageModel) -> AppModel {
        match message {
            MessageModel::UpdateBackgroundPath(path) => AppModel {
                background_path: Some(path),
                history: record(self.history, path),
                ..self
            },
            MessageModel::ResetBackgroundPath => AppModel { background_path: None, ..self },
            MessageModel::Initialize
            | MessageModel::OpenFilePicker
            | MessageModel::CloseFilePicker => self,
        }
    }

    /// What the application asks of the outside when it gets `message`.
    pub open spec fn reaction(self, message: MessageModel) -> ActionModel {
        match message {
            MessageModel::Initialize => ActionModel::Fullscreen(self.background_surface),
            MessageModel::OpenFilePicker => ActionModel::PickFile(supported_files()),
            MessageModel::UpdateBackgroundPath(_)
            | MessageModel::ResetBackgroundPath
            | MessageModel::CloseFilePicker => ActionModel::Nothing,
        }
    }

    /// The state after each of `messages`, one after the other.
    pub open spec fn after_all(self, messages: Seq<MessageModel>) -> AppModel
        decreases messages.len(),
    {
        if messages.len() == 0 {
            self
        } else {
            self.after_all(messages.drop_last()).after(messages.last())
        }
    }
}

/// The messages that choose each of `chosen`, in order.
pub open spec fn choices(chosen: Seq<Path>) -> Seq<MessageModel> {
    Seq::new(chosen.len(), |i: int| MessageModel::UpdateBackgroundPath(chosen[i]))
}

/// The state at start is well formed.
pub proof fn lemma_initial_wf(
    editor_window: iced::window::Id,
    background_surface: iced::window::Id,
)
    ensures
        AppModel::initial(editor_window, background_surface).wf(),
{
}

/// No message breaks a well-formed state.
pub proof fn lemma_after_keeps_wf(state: AppModel, message: MessageModel)
    requires
        state.wf(),
    ensures
        state.after(message).wf(),
{
    if let MessageModel::UpdateBackgroundPath(path) = message {
        lemma_record_extends(state.history, path);
    }
}

/// No message changes which windows the application has, and the history only
/// ever grows at its end: what it held stays in front, in place.
pub proof fn lemma_after_only_grows(state: AppModel, message: MessageModel)
    ensures
        state.after(message).editor_window == state.editor_window,
        state.after(message).background_surface == state.background_surface,
        state.history.is_prefix_of(state.after(message).history),
{
    if let MessageModel::UpdateBackgroundPath(path) = message {
        lemma_record_extends(state.history, path);
    }
}

/// Every state that the application reaches is well formed, whatever messages
/// led to it, and has the windows that it started with.
pub proof fn lemma_reachable_wf(
    editor_window: iced::window::Id,
    background_surface: iced::window::Id,
    messages: Seq<MessageModel>,
)
    ensures
        AppModel::initial(editor_window, background_surface).after_all(messages).wf(),
        AppModel::initial(editor_window, background_surface).after_all(messages).editor_window
            == editor_window,
        AppModel::initial(editor_window, background_surface).after_all(
            messages,
        ).background_surface == background_surface,
    decreases messages.len(),
{
    let start = AppModel::initial(editor_window, background_surface);
    if messages.len() > 0 {
        lemma_reachable_wf(editor_window, background_surface, messages.drop_last());
        lemma_after_keeps_wf(start.after_all(messages.drop_last()), messages.last());
        lemma_after_only_grows(start.after_all(messages.drop_last()), messages.last());
    }
}

/// Choosing the same path twice in a row is the same as choosing it once: the
/// second choice changes nothing, and the path is on show after each.
pub proof fn lemma_choice_twice(state: AppModel, path: Path)
    ensures
        state.after(MessageModel::UpdateBackgroundPath(path)).background_path == Some(path),
        state.after(MessageModel::UpdateBackgroundPath(path)).after(
            MessageModel::UpdateBackgroundPath(path),
        ) == state.after(MessageModel::UpdateBackgroundPath(path)),
{
    lemma_record_twice(state.history, path);
}

/// Clearing the picture leaves no picture on show, whatever was shown before,
/// and leaves the history as it is.
pub proof fn lemma_reset_clears_picture(state: AppModel)
    ensures
        state.after(MessageModel::ResetBackgroundPath).background_path is None,
        state.after(MessageModel::ResetBackgroundPath).history == state.history,
{
}

/// A file dialog that closes without a choice changes nothing.
pub proof fn lemma_close_changes_nothing(state: AppModel)
    ensures
        state.after(MessageModel::CloseFilePicker) == state,
        state.reaction(MessageModel::CloseFilePicker) == ActionModel::Nothing,
{
}

/// After a run of choices the history is the one that records them in order,
/// and the picture on show is the last choice, if there was any.
pub proof fn lemma_choices_record_all(state: AppModel, chosen: Seq<Path>)
    ensures
        state.after_all(choices(chosen)).history == record_all(state.history, chosen),
        state.after_all(choices(chosen)).background_path == (if chosen.len() == 0 {
            state.background_path
        } else {
            Some(chosen.last())
        }),
    decreases chosen.len(),
{
    if chosen.len() > 0 {
        lemma_choices_record_all(state, chosen.drop_last());
        assert(choices(chosen).drop_last() =~= choices(chosen.drop_last()));
    }
}

/// Whatever pictures are chosen, and in whatever order, the history then holds
/// each distinct path exactly once, in the order in which each was first
/// chosen: it repeats nothing; what it held before stays in front, in place; it
/// holds the earlier paths and the chosen ones, and no others; and of two paths
/// that the choices added, the one that stands first was chosen before the
/// other was ever chosen.
pub proof fn lemma_choices_first_seen(state: AppModel, chosen: Seq<Path>)
    requires
        state.wf(),
    ensures
        state.after_all(choices(chosen)).history.no_duplicates(),
        state.history.is_prefix_of(state.after_all(choices(chosen)).history),
        forall|path: Path|
            state.after_all(choices(chosen)).history.contains(path) <==> state.history.contains(
                path,
            ) || chosen.contains(path),
        forall|i: int, j: int|
            state.history.len() <= i < j < state.after_all(choices(chosen)).history.len()
                ==> chosen_before(
                chosen,
                #[trigger] state.after_all(choices(chosen)).history[i],
                #[trigger] state.after_all(choices(chosen)).history[j],
            ),
{
    lemma_choices_record_all(state, chosen);
    lemma_record_all_first_seen(state.history, chosen);
}

} // verus!
