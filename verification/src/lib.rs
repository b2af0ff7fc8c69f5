//! Editor-side physics joint synchronization, reduced to its decision logic.
//!
//! Authoring-time joint descriptors are reconciled, once per host tick, with
//! the live joint objects a physics engine consumes. This crate holds the
//! verified core of that reconciliation: the descriptor-to-configuration
//! translator, the per-body name resolution map, the anchor-marker pair
//! manager, and the per-pass lifecycle synchronizer. The host shell supplies
//! entity identities and applies the command queue each pass produces.

pub mod commands;
pub mod generic_joint;
pub mod local_anchor_marker;
pub mod math;
pub mod name_map;
pub mod prebaf;
