//! What each window shows.
//!
//! The editor window holds a toolbar and, below it, a gallery of the history:
//! one thumbnail per path, each with a button that chooses that very path. The
//! background surface holds the chosen picture, or nothing.

use crate::history::{paths_of, Path};
use crate::message::{Message, MessageModel};
use crate::state::AppModel;
use crate::widget::{
    lemma_column_model, lemma_row_model, models_of, ImageFit, Widget, WidgetModel,
};
use vstd::prelude::*;

verus! {

/// How high a thumbnail of the gallery is, in pixels.
pub const THUMBNAIL_HEIGHT: u32 = 100;

/// The toolbar: a button that opens the file dialog, and one that clears the
/// picture.
pub open spec fn toolbar() -> WidgetModel {
    WidgetModel::Row(
        seq![
            WidgetModel::Button { label: "Open"@, on_press: MessageModel::OpenFilePicker },
            WidgetModel::Button { label: "Clear"@, on_press: MessageModel::ResetBackgroundPath },
        ],
    )
}

/// The gallery's entry for `path`: its thumbnail, and below it the button that
/// chooses `path`.
pub open spec fn gallery_entry(path: Path) -> WidgetModel {
    WidgetModel::Column(
        seq![
            WidgetModel::Image { path, fit: ImageFit::Height(THUMBNAIL_HEIGHT) },
            WidgetModel::Button {
                label: "Use"@,
                on_press: MessageModel::UpdateBackgroundPath(path),
            },
        ],
    )
}

/// The entries of the gallery: one for each path of the history, in order.
pub open spec fn gallery_entries(history: Seq<Path>) -> Seq<WidgetModel> {
    Seq::new(history.len(), |i: int| gallery_entry(history[i]))
}

/// What the editor window shows: the toolbar, and below it the gallery.
pub open spec fn editor_scene(history: Seq<Path>) -> WidgetModel {
    WidgetModel::Column(seq![toolbar(), WidgetModel::Row(gallery_entries(history))])
}

/// What the background surface shows: the picture, filling the surface, or an
/// empty filler where there is none.
pub open spec fn background_scene(background_path: Option<Path>) -> WidgetModel {
    match background_path {
        Some(path) => WidgetModel::Image { path, fit: ImageFit::Fill },
        None => WidgetModel::Space,
    }
}

impl AppModel {
    /// What the window `id` shows. A window that the application does not know
    /// shows an empty filler.
    pub open spec fn scene(self, id: iced::window::Id) -> WidgetModel {
        if id == self.editor_window {
            editor_scene(self.history)
        } else if id == self.background_surface {
            background_scene(self.background_path)
        } else {
            WidgetModel::Space
        }
    }
}

/// The editor window shows the toolbar and the gallery. The gallery has
/// exactly as many entries as the history has paths, and the entry at each
/// place shows the path at that place and chooses that same path, not another.
pub proof fn lemma_gallery_follows_history(state: AppModel)
    ensures
        state.scene(state.editor_window) == WidgetModel::Column(
            seq![toolbar(), WidgetModel::Row(gallery_entries(state.history))],
        ),
        gallery_entries(state.history).len() == state.history.len(),
        forall|i: int|
            0 <= i < state.history.len() ==> #[trigger] gallery_entries(state.history)[i]
                == WidgetModel::Column(
                seq![
                    WidgetModel::Image {
                        path: state.history[i],
                        fit: ImageFit::Height(THUMBNAIL_HEIGHT),
                    },
                    WidgetModel::Button {
                        label: "Use"@,
                        on_press: MessageModel::UpdateBackgroundPath(state.history[i]),
                    },
                ],
            ),
{
}

/// The background surface shows an empty filler while no picture is chosen,
/// and else the picture at exactly the chosen path.
pub proof fn lemma_background_shows_picture(state: AppModel)
    requires
        state.background_surface != state.editor_window,
    ensures
        state.scene(state.background_surface) == (match state.background_path {
            Some(path) => WidgetModel::Image { path, fit: ImageFit::Fill },
            None => WidgetModel::Space,
        }),
{
}

impl Widget {
    /// Builds a button.
    pub fn button(label: &str, on_press: Message) -> (button: Widget)
        ensures
            button@ == (WidgetModel::Button { label: label@, on_press: on_press@ }),
    {
        Widget::Button { label: label.to_owned(), on_press }
    }

    /// Builds the toolbar of the editor window.
    pub fn toolbar() -> (row: Widget)
        ensures
            row@ == toolbar(),
    {
        let mut buttons: Vec<Widget> = Vec::new();
        buttons.push(Widget::button("Open", Message::OpenFilePicker));
        buttons.push(Widget::button("Clear", Message::ResetBackgroundPath));
        proof {
            lemma_row_model(buttons);
            assert(models_of(buttons@) =~= toolbar()->Row_0);
        }
        Widget::Row(buttons)
    }

    /// Builds the gallery's entry for `path`.
    pub fn gallery_entry(path: &String) -> (entry: Widget)
        ensures
            entry@ == gallery_entry(path@),
    {
        let mut parts: Vec<Widget> = Vec::new();
        parts.push(Widget::Image { path: path.clone(), fit: ImageFit::Height(THUMBNAIL_HEIGHT) });
        parts.push(Widget::button("Use", Message::UpdateBackgroundPath(path.clone())));
        proof {
            lemma_column_model(parts);
            assert(models_of(parts@) =~= gallery_entry(path@)->Column_0);
        }
        Widget::Column(parts)
    }

    /// Builds what the editor window shows for `history`.
    pub fn editor(history: &Vec<String>) -> (scene: Widget)
        ensures
            scene@ == editor_scene(paths_of(history@)),
    {
        let mut entries: Vec<Widget> = Vec::new();
        let mut i: usize = 0;
        while i < history.len()
            invariant
                i <= history.len(),
                entries@.len() == i,
                forall|k: int|
                    0 <= k < i ==> (#[trigger] entries@[k])@ == gallery_entry(history@[k]@),
            decreases history.len() - i,
        {
            entries.push(Widget::gallery_entry(&history[i]));
            i += 1;
        }
        assert(models_of(entries@) =~= gallery_entries(paths_of(history@)));
        let mut parts: Vec<Widget> = Vec::new();
        parts.push(Widget::toolbar());
        proof {
            lemma_row_model(entries);
        }
        parts.push(Widget::Row(entries));
        proof {
            lemma_column_model(parts);
            assert(models_of(parts@) =~= editor_scene(paths_of(history@))->Column_0);
        }
        Widget::Column(parts)
    }

    /// Builds what the background surface shows for `background_path`.
    pub fn background(background_path: &Option<String>) -> (scene: Widget)
        ensures
            scene@ == background_scene(
                match background_path {
                    Some(path) => Some(path@),
                    None => None,
                },
            ),
    {
        match background_path {
            Some(path) => Widget::Image { path: path.clone(), fit: ImageFit::Fill },
            None => Widget::Space,
        }
    }
}

} // verus!
