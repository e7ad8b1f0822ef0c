//! Verified core logic of the LibLLM terminal chat client.

pub mod text;
pub mod macros;
pub mod thought;
pub mod paged_list;
pub mod input_file_cache;
pub mod theme;
pub mod status;
pub mod business;
pub mod sidebar;
pub mod keys;
pub mod confirm;
pub mod chat_settings;
pub mod regex_editor;
pub mod input;
pub mod fields;
pub mod file_picker;
pub mod layout;
pub mod styled;
pub mod search;
pub mod theme_editor;
pub mod auth;
pub mod injection;
pub mod drop_search;
pub mod stream;
pub mod prompt;
pub mod focus;
pub mod mouse;
pub mod paste;
pub mod selection;
pub mod navigation;
pub mod worldbook;
pub mod config_form;
pub mod validation;
pub mod builders;
pub mod preset;
pub mod commands;
pub mod status_bar;
pub mod edit;
pub mod autosave;
pub mod export;
pub mod flash;
pub mod list_dialog;
pub mod clipboard;
pub mod clock;
pub mod field_close;
pub mod chat_labels;
pub mod background;
