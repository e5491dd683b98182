//! Finds the projects on a machine and plans a start-menu shortcut for each
//! of them, which opens the project in the editor.
//!
//! The library holds the rules: how projects and locations are registered,
//! which projects a listing of the locations gives, what the icon of a
//! project is made of and where it is kept, and what each shortcut holds.
//! Reading directories, drawing, and writing files and shortcuts are left to
//! the program around it, which hands in what it has read and carries out
//! what is planned here.

pub mod cli;
pub mod config;
pub mod discovery;
pub mod icon;
pub mod paths;
pub mod shortcuts;
pub mod text;
pub mod utils;
