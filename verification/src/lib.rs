//! Unified error taxonomy for an RPC binding layer: one discriminated error
//! type that every fallible operation of the surrounding API returns, with a
//! fixed category description per variant, a lossless textual rendering, and
//! adapters that fold codec-library failures into the `Codec` variant.

pub mod digits;
pub mod error;
pub mod render_props;
