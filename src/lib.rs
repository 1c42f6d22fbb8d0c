//! Data binding and control dispatch for the panels of a control panel that
//! shows virtual machines and services.
use vstd::prelude::*;

pub mod transform;
pub mod panel;
pub mod settings;

verus! {

} // verus!
