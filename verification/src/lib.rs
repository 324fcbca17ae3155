//! A terminal music-player core: settings, download naming, command parsing, the reading
//! of the API's replies, lyrics decoding, songlist ordering and the screens' state machines.

pub mod actions;
pub mod api;
pub mod command;
pub mod control;
pub mod daily;
pub mod daily_panel;
pub mod float_text;
pub mod help;
pub mod json;
pub mod lyrics;
pub mod model;
pub mod naming;
pub mod panel;
pub mod reply;
pub mod paths;
pub mod pins;
pub mod screen;
pub mod settings;
pub mod settings_screen;
pub mod songlist_edit;
pub mod songlists_panel;
pub mod text;
