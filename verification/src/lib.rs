//! Icepaper sets a desktop wallpaper: one surface shows the chosen picture,
//! an editor window picks a file and switches among the pictures used so far.
//!
//! This library is the part of it that decides: the state, how each message
//! changes it and what it asks of the outside in return, and what each window
//! shows. The toolkit, the file dialog and the event loop live with the caller.

pub mod window;
pub mod message;
pub mod history;
pub mod picker;
pub mod widget;
pub mod action;
pub mod state;
pub mod scene;
pub mod app;

pub use crate::action::Action;
pub use crate::app::App;
pub use crate::message::Message;
pub use crate::picker::FileFilter;
pub use crate::widget::{ImageFit, Widget};
