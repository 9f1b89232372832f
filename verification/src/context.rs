//! What setting up the rendering context can fail with.
//!
//! The renderer never makes a window or a context itself: it is handed work
//! to compile into frames, and whoever owns the context issues them. The
//! error is defined here so that every backend reports the same one.

use vstd::prelude::*;

verus! {

/// The backend could not set up a context to render with. Nothing can be
/// drawn without one, so the caller can only give up or try another backend.
#[derive(Debug, Clone, Copy, PartialEq, Eq, Hash, Structural)]
pub struct CreationError;

} // verus!
