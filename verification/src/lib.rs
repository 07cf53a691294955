//! Configuration, command and window-manager state logic for the rift tiling
//! window manager, with its behaviour stated as Verus contracts.
use vstd::prelude::*;

pub mod bar_layout;
pub mod bindings;
pub mod config_text;
pub mod commands;
pub mod hotkeys;
pub mod defaults;
pub mod hints;
pub mod hints_bar;
pub mod issues;
pub mod managers;
pub mod number;
pub mod paths;
pub mod settings;
pub mod suggest;
pub mod text;
pub mod unicode;
pub mod validation;
pub mod workspace_rules;

verus! {

} // verus!
