//! Per-device mouse remapping: the configuration model, the lookup tables built from it, the
//! decision taken for each intercepted event, and the models behind the editor and the menu.

pub mod cli;
pub mod config;
pub mod config_laws;
pub mod device_laws;
pub mod edit_laws;
pub mod editor;
pub mod editor_laws;
pub mod edits;
pub mod engine;
pub mod engine_laws;
pub mod files;
pub mod forms;
pub mod hid;
pub mod keymap;
pub mod lists;
pub mod mappings;
pub mod menu;
pub mod name_laws;
pub mod probe;
pub mod problem_laws;
pub mod report;
pub mod shell_laws;
pub mod table_laws;
pub mod tap_laws;
pub mod text;
pub mod text_laws;
pub mod validate;
