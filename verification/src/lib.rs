//! Parameter lowering for a native-binding generator.
//!
//! Given the raw parameter list of one native function, the lowering engine
//! in [`function_parameters`] computes three ordered lists: the surface
//! parameters exposed to callers of the generated binding, the native
//! parameters needed to perform the foreign call, and the per-parameter
//! transformation steps that convert one into the other.  The collaborating
//! pieces — the read-only type environment, per-parameter configuration
//! overrides, the conversion-category classifier, the reference-mode rule and
//! the keyword mangler — live in the sibling modules.

pub mod config;
pub mod conversion_type;
pub mod function_parameters;
pub mod library;
pub mod nameutil;
pub mod ref_mode;
pub mod strutil;
