//! The verified core of RM, a desktop manager for Roblox accounts.
//!
//! Everything the program decides lives here: what a click or a backend reply
//! does to the application state, which commands are sent, which uploads go
//! out next, how rows are filtered and ordered, what is written on screen.
//! Drawing, network, files and processes are left to the program around it.

pub mod app;
pub mod asset_manager;
pub mod asset_panes;
pub mod asset_rows;
pub mod asset_view;
pub mod assets;
pub mod backend;
pub mod bridge;
pub mod browser_login;
pub mod changelog;
pub mod cookies;
pub mod entry;
pub mod json;
pub mod label_laws;
pub mod labels;
pub mod lists;
pub mod logging;
pub mod login_laws;
pub mod models;
pub mod order;
pub mod row_laws;
pub mod settings;
pub mod text;
pub mod theme;
pub mod toast;
