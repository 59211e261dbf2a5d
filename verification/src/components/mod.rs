pub mod about_dialog;
pub mod application;
pub mod body_text;
pub mod file_dialog;
pub mod menu;
pub mod status_bar;
pub mod util;
