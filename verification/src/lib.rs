//! The logic of a terminal HTTP client.

pub mod app;
pub mod body;
pub mod buffer;
pub mod drawing;
pub mod editing;
pub mod editor;
pub mod explorer;
pub mod help;
pub mod jump;
pub mod keeping;
pub mod keymap;
pub mod keys;
pub mod layout;
pub mod line_editor;
pub mod load;
pub mod loading;
pub mod meta;
pub mod mode;
pub mod model;
pub mod notice;
pub mod overlays;
pub mod pane;
pub mod panel;
pub mod paths;
pub mod picker;
pub mod popup;
pub mod query;
pub mod request_pane;
pub mod response;
pub mod routing;
pub mod sending;
pub mod sequence;
pub mod settings;
pub mod surfaces;
pub mod switching;
pub mod text;
pub mod tree;
pub mod unsaved;
pub mod vars;
pub mod viewing;
pub mod workspace;
