//! Planning of remote reuse of cached KV blocks.
//!
//! A router that has picked a target worker for a request may find that
//! another worker already holds part of the request's prefix in pinned host
//! memory. [`remote_g2_plan::select_remote_g2_reuse_plan`] decides whether the
//! target should pull those blocks, from whom, and which ones.

pub mod decimal;
pub mod indexer;
pub mod keyed_map;
pub mod laws;
pub mod protocols;
pub mod remote_g2_plan;
pub mod selection;
