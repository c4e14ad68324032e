//! What a window shows, as a tree of plain values.
//!
//! The library describes each window's content with the few kinds of widget
//! that it needs; the caller turns the tree into the toolkit's own widgets.

use crate::message::{Message, MessageModel};
use vstd::prelude::*;

verus! {

/// How a picture takes its place.
#[derive(Debug, Clone, Copy, PartialEq, Eq)]
pub enum ImageFit {
    /// The picture fills what it is given, in both directions.
    Fill,
    /// The picture is this many pixels high.
    Height(u32),
}

/// One node of a window's content.
#[derive(Debug, PartialEq, Eq)]
pub enum Widget {
    /// The children, one below the other.
    Column(Vec<Widget>),
    /// The children, side by side.
    Row(Vec<Widget>),
    /// A button; pressing it sends `on_press`.
    Button { label: String, on_press: Message },
    /// The picture stored at `path`.
    Image { path: String, fit: ImageFit },
    /// An empty filler: nothing to see.
    Space,
}

/// A widget tree as the contracts see it.
pub enum WidgetModel {
    Column(Seq<WidgetModel>),
    Row(Seq<WidgetModel>),
    Button { label: Seq<char>, on_press: MessageModel },
    Image { path: Seq<char>, fit: ImageFit },
    Space,
}

/// The models of the widgets of a vector, in order.
pub open spec fn models_of(widgets: Seq<Widget>) -> Seq<WidgetModel> {
    Seq::new(widgets.len(), |i: int| widgets[i]@)
}

impl View for Widget {
    type V = WidgetModel;

    // The children are numbered within their vector's length; the test on the
    // number is there for the termination check, which sees any `i`.
    open spec fn view(&self) -> WidgetModel
        decreases self,
    {
        match self {
            Widget::Column(children) => WidgetModel::Column(
                Seq::new(
                    children.len() as nat,
                    |i: int|
                        if 0 <= i < children.len() {
                            children[i].view()
                        } else {
                            WidgetModel::Space
                        },
                ),
            ),
            Widget::Row(children) => WidgetModel::Row(
                Seq::new(
                    children.len() as nat,
                    |i: int|
                        if 0 <= i < children.len() {
                            children[i].view()
                        } else {
                            WidgetModel::Space
                        },
                ),
            ),
            Widget::Button { label, on_press } => WidgetModel::Button {
                label: label@,
                on_press: on_press@,
            },
            Widget::Image { path, fit } => WidgetModel::Image { path: path@, fit: *fit },
            Widget::Space => WidgetModel::Space,
        }
    }
}

/// A column is the column of its children's models.
pub proof fn lemma_column_model(children: Vec<Widget>)
    ensures
        Widget::Column(children)@ == WidgetModel::Column(models_of(children@)),
{
    broadcast use vstd::std_specs::vec::group_vec_axioms;

    reveal_with_fuel(<Widget as View>::view, 2);
    assert(Widget::Column(children)@->Column_0 =~= models_of(children@));
}

/// A row is the row of its children's models.
pub proof fn lemma_row_model(children: Vec<Widget>)
    ensures
        Widget::Row(children)@ == WidgetModel::Row(models_of(children@)),
{
    broadcast use vstd::std_specs::vec::group_vec_axioms;

    reveal_with_fuel(<Widget as View>::view, 2);
    assert(Widget::Row(children)@->Row_0 =~= models_of(children@));
}

} // verus!
