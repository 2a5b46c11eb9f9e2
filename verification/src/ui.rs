//! What the user interface shows, as far as it is decided and not drawn.

pub mod main_menu;
pub mod status;
pub mod widgets;
