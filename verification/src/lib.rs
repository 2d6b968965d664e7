//! Decisions behind the desktop development commands.
//!
//! The workflows in `desktop`, and the parts that they are made of, are functions of the replies to
//! the questions that they asked of the outside world so far: see `replay`. Every executable
//! function equals its mathematical counterpart, and the theorems called `law_*` are about those.

pub mod app_url;
pub mod bundle;
pub mod canary;
pub mod commands;
pub mod desktop;
pub mod electron;
pub mod error;
pub mod paths;
pub mod plist;
pub mod replay;
pub mod text;
pub mod workspace;
