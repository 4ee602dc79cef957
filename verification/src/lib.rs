//! Safe core of a bridge to the libccd GJK intersection routine.
//!
//! The library holds everything about one intersection query that can be
//! decided on plain values: how a support function is marshalled through the
//! foreign vector layout, what the configuration record handed to the foreign
//! routine contains, in which order closures are pinned, used and released,
//! and how the integer that comes back is read.

pub mod callback;
pub mod descriptor;
pub mod outcome;
pub mod ownership;
pub mod precision;
pub mod query;
pub mod vector;

pub use callback::support_callback;
pub use descriptor::{ccd_new, ccd_t};
pub use vector::ccd_vec3_t;
