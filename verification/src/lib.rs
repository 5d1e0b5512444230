//! Core logic of the garfield file explorer.
pub mod text;
pub mod path;
pub mod clipboard;
pub mod history;
pub mod undo;
pub mod order;
pub mod entry;
pub mod operations;
pub mod paste;
pub mod places;
pub mod trash;
pub mod recents;
pub mod picker;
pub mod keys;
pub mod pointer;
pub mod views;
pub mod menu;
pub mod context_menu;
pub mod address_bar;
pub mod breadcrumb;
pub mod dialogs;
pub mod help;
pub mod sidebar;
pub mod tab_bar;
pub mod toolbar;
pub mod status_bar;
pub mod panes;
pub mod selection;
pub mod list_view;
pub mod grid_view;
pub mod column_view;
pub mod tab;
pub mod portal;
pub mod layout;
pub mod ipc;
pub mod apps;
pub mod app_picker;
pub mod previews;
pub mod geometry;
pub mod drag;
pub mod xbel;
