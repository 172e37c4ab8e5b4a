//! Keeps a base repository and its overlays mirrored locally, and decides
//! when the composed database has to be rebuilt.
//!
//! Everything here is pure decision logic: the caller performs the transfers,
//! the existence checks and the composition, and hands their outcomes back.
pub mod freshness;
pub mod laws;
pub mod pipeline;
pub mod source;
pub mod sync;
