//! Verified core of a Path of Building front end: colour-code handling,
//! build-code URL resolution, build-folder paths and display labels.

pub mod text;
pub mod color_codes;
pub mod colors;
pub mod url;
pub mod paths;
pub mod labels;
pub mod selection;
pub mod config;
pub mod compression;
pub mod tabs;
pub mod theme;
pub mod file_search;
pub mod share;
pub mod notes;
pub mod item_types;
pub mod tree_nodes;
pub mod build_dialogs;
pub mod tree_specs;
pub mod build_header;
pub mod skills;
pub mod build_list;
pub mod craft_dialogs;
pub mod tree_panel;
