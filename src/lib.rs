//! A terminal note keeper: an ordered note store, the views that compose and
//! show notes, and the modal controller that routes input between them.

pub mod app;
pub mod confirm_dialog;
pub mod controller;
pub mod edit_view;
pub mod input;
pub mod list_view;
pub mod markdown_view;
pub mod note;
pub mod store;
pub mod text;
pub mod toast;
