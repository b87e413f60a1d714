//! Interfaces of user-interface components.

use vstd::prelude::*;

verus! {

/// A component that caches its drawing and redraws only when marked dirty.
pub trait CachedUIComponent {
    /// Drops whatever was cached.
    fn clear_cache(&mut self);

    /// Marks the component as needing a redraw.
    fn mark_dirty(&mut self);

    /// Whether the component needs a redraw.
    fn is_dirty(&self) -> bool;
}

} // verus!
