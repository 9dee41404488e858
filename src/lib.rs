//! Template registry of the warp controller: submission, editing and
//! deletion of reusable message templates, with exact fee accounting,
//! ownership checks and identifiers drawn from a shared counter.

pub mod laws;
pub mod msg;
pub mod registry;
