//! The application: its state, the handler of messages, and the renderer.

use crate::action::Action;
use crate::history::{lemma_record_extends, paths_of, remember};
use crate::message::Message;
use crate::picker::FileFilter;
use crate::state::AppModel;
use crate::widget::Widget;
use crate::window::same_window;
use vstd::prelude::*;

verus! {

/// The state of the running application. It is made once, at start, and from
/// then on changes only through `update`.
#[derive(Debug, PartialEq, Eq)]
pub struct App {
    editor_window_id: iced::window::Id,
    background_surface_id: iced::window::Id,
    background_path: Option<String>,
    history: Vec<String>,
}

impl App {
    /// The state as the contracts see it.
    pub closed spec fn model(&self) -> AppModel {
        AppModel {
            editor_window: self.editor_window_id,
            background_surface: self.background_surface_id,
            background_path: match self.background_path {
                Some(path) => Some(path@),
                None => None,
            },
            history: paths_of(self.history@),
        }
    }

    #[verifier::type_invariant]
    spec fn well_formed(&self) -> bool {
        self.model().wf()
    }

    /// The application at start: the two windows it was given, no picture, and
    /// an empty history.
    pub fn new(
        editor_window_id: iced::window::Id,
        background_surface_id: iced::window::Id,
    ) -> (app: App)
        ensures
            app.model() == AppModel::initial(editor_window_id, background_surface_id),
            app.model().wf(),
    {
        let app = App {
            editor_window_id,
            background_surface_id,
            background_path: None,
            history: Vec::new(),
        };
        assert(app.model().history =~= Seq::empty());
        app
    }

    /// Handles one message: changes the state as the message says, and returns
    /// what is to be asked of the outside.
    ///
    /// Choosing a path puts it on show and records it in the history unless it
    /// is there already. Clearing takes the picture away and leaves the history
    /// alone. The other messages leave the whole state as it was: the first
    /// asks for the background surface to fill the screen, a request for the
    /// file dialog asks for the dialog, and a dialog closed without a choice
    /// asks for nothing.
    pub fn update(&mut self, message: Message) -> (action: Action)
        ensures
            final(self).model() == old(self).model().after(message@),
            action@ == old(self).model().reaction(message@),
            final(self).model().wf(),
            message is ResetBackgroundPath ==> final(self).model().background_path is None,
            message is ResetBackgroundPath ==> final(self).model().history == old(
                self,
            ).model().history,
            message is CloseFilePicker || message is Initialize || message is OpenFilePicker
                ==> *final(self) == *old(self),
    {
        proof {
            use_type_invariant(&*self);
        }
        match message {
            Message::Initialize => Action::Fullscreen(self.background_surface_id),
            Message::UpdateBackgroundPath(path) => {
                proof {
                    lemma_record_extends(self.model().history, path@);
                }
                // The history leaves the state while it grows, and no picture
                // is on show meanwhile, so that the state stays well formed.
                let mut history: Vec<String> = Vec::new();
                self.background_path = None;
                std::mem::swap(&mut self.history, &mut history);
                remember(&mut history, &path);
                self.history = history;
                self.background_path = Some(path);
                Action::Nothing
            },
            Message::ResetBackgroundPath => {
                self.background_path = None;
                Action::Nothing
            },
            Message::OpenFilePicker => Action::PickFile(FileFilter::supported()),
            Message::CloseFilePicker => Action::Nothing,
        }
    }

    /// Describes what the window `id` shows: the editor window its toolbar and
    /// gallery, the background surface its picture, any other window nothing.
    pub fn view(&self, id: iced::window::Id) -> (tree: Widget)
        ensures
            tree@ == self.model().scene(id),
    {
        if same_window(id, self.editor_window_id) {
            Widget::editor(&self.history)
        } else if same_window(id, self.background_surface_id) {
            Widget::background(&self.background_path)
        } else {
            Widget::Space
        }
    }

    /// The editor window.
    pub fn editor_window_id(&self) -> (id: iced::window::Id)
        ensures
            id == self.model().editor_window,
    {
        self.editor_window_id
    }

    /// The background surface.
    pub fn background_surface_id(&self) -> (id: iced::window::Id)
        ensures
            id == self.model().background_surface,
    {
        self.background_surface_id
    }

    /// The path of the picture on show, if there is one.
    pub fn background_path(&self) -> (path: &Option<String>)
        ensures
            (match *path {
                Some(text) => self.model().background_path == Some(text@),
                None => self.model().background_path is None,
            }),
    {
        &self.background_path
    }

    /// The paths chosen so far: each once, in the order first chosen.
    pub fn history(&self) -> (history: &Vec<String>)
        ensures
            paths_of(history@) == self.model().history,
            self.model().wf(),
    {
        proof {
            use_type_invariant(self);
        }
        &self.history
    }
}

} // verus!
