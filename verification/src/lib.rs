use vstd::prelude::*;

pub mod app;
pub mod config;
pub mod display;
pub mod i18n;
pub mod manage;
pub mod metrics;
pub mod prefs;
pub mod registry;
pub mod text;
pub mod wsl;

verus! {

} // verus!
