//! The decisions of buttons, menus and dialogs.

pub mod status_buttons;
