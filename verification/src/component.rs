//! Targets of the color and category pickers.

use vstd::prelude::*;

verus! {

/// What the color picker is modifying.
#[derive(Debug, Clone, Copy, PartialEq, Eq, Structural)]
pub enum ColorPickerContext {
    /// Coloring an individual key
    IndividualKey,
    /// Setting layer default color
    LayerDefault,
    /// Setting category color
    Category,
}

/// What the category picker is modifying.
#[derive(Debug, Clone, Copy, PartialEq, Eq, Structural)]
pub enum CategoryPickerContext {
    /// Setting category for a single key
    SingleKey,
    /// Setting category for multiple selected keys
    MultipleKeys,
}

} // verus!
