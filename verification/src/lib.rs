//! Aether: the editing core of a terminal text editor.
pub mod text;
pub mod path;
pub mod editor;
pub mod syntax;
pub mod highlight;
pub mod icons;
pub mod ai;
pub mod chat;
pub mod config;
pub mod updater;
pub mod theme;
pub mod cli;
pub mod app;
