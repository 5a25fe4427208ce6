//! Semantic analysis for generating memory-safe bindings over a native
//! object library.
//!
//! The crate reads a raw type graph (classes, interfaces, records,
//! enumerations, fundamentals) and decides, for every function and
//! parameter, how values are represented and transferred across the
//! foreign-function boundary: which parameters receive generic bounds,
//! how native output parameters and the return value are packaged into a
//! single result, and when a runtime thread-affinity assertion is needed.

use vstd::prelude::*;

pub mod bounds;
pub mod config;
pub mod conversion_type;
pub mod env;
pub mod functions;
pub mod hierarchy;
pub mod imports;
pub mod info_base;
pub mod library;
pub mod nameutil;
pub mod object;
pub mod out_parameters;
pub mod properties;
pub mod rust_type;
pub mod safety_assertion_mode;
pub mod signals;
pub mod special_functions;
pub mod supertypes;
pub mod symbols;
pub mod version;
