//! Core value types of a keyboard layout that the editor dialogs work on.

use vstd::prelude::*;

verus! {

/// A key position in the visual grid (row and column).
#[derive(Debug, Clone, Copy, PartialEq, Eq, Structural, Hash)]
pub struct Position {
    /// Row index
    pub row: u8,
    /// Column index
    pub col: u8,
}

impl Position {
    /// Creates a position.
    pub fn new(row: u8, col: u8) -> (p: Self)
        ensures
            p.row == row,
            p.col == col,
    {
        Position { row, col }
    }
}

/// An RGB color.
#[derive(Debug, Clone, Copy, PartialEq, Eq, Structural, Hash)]
pub struct RgbColor {
    /// Red channel
    pub r: u8,
    /// Green channel
    pub g: u8,
    /// Blue channel
    pub b: u8,
}

impl RgbColor {
    /// Creates a color from its three channels.
    pub fn new(r: u8, g: u8, b: u8) -> (c: Self)
        ensures
            c.r == r,
            c.g == g,
            c.b == b,
    {
        RgbColor { r, g, b }
    }
}

/// A named category that keys and layers can be assigned to.
#[derive(Debug, Clone)]
pub struct Category {
    /// Stable identifier
    pub id: String,
    /// Display name
    pub name: String,
    /// Category color
    pub color: RgbColor,
}

/// Abstract view of a [`Category`].
pub struct CategoryView {
    /// Identifier characters
    pub id: Seq<char>,
    /// Name characters
    pub name: Seq<char>,
    /// Color
    pub color: RgbColor,
}

impl View for Category {
    type V = CategoryView;

    open spec fn view(&self) -> CategoryView {
        CategoryView { id: self.id@, name: self.name@, color: self.color }
    }
}

/// Views of a sequence of categories.
pub open spec fn category_views(cats: Seq<Category>) -> Seq<CategoryView> {
    cats.map_values(|c: Category| c@)
}

/// One shade of a palette color.
#[derive(Debug, Clone, Copy, PartialEq, Eq, Structural)]
pub struct Shade {
    /// Red channel
    pub r: u8,
    /// Green channel
    pub g: u8,
    /// Blue channel
    pub b: u8,
}

/// A base color of the palette with its shades.
#[derive(Debug, Clone)]
pub struct PaletteColor {
    /// Display name of the color
    pub name: String,
    /// Shades from lightest to darkest
    pub shades: Vec<Shade>,
}

impl PaletteColor {
    /// Number of shades.
    pub fn shade_count(&self) -> (n: usize)
        ensures
            n == self.shades@.len(),
    {
        self.shades.len()
    }

    /// The shade at `index`, if any.
    pub fn shade_at(&self, index: usize) -> (s: Option<&Shade>)
        ensures
            index < self.shades@.len() ==> s == Some(&self.shades@[index as int]),
            index >= self.shades@.len() ==> s is None,
    {
        if index < self.shades.len() {
            Some(&self.shades[index])
        } else {
            None
        }
    }
}

/// The curated color palette shown by the color picker, laid out as a grid
/// with `columns` colors per row.
#[derive(Debug, Clone)]
pub struct ColorPalette {
    /// Base colors in grid order
    pub colors: Vec<PaletteColor>,
    /// Number of colors per grid row
    pub columns: usize,
}

impl ColorPalette {
    /// The palette can be navigated: at least one color, at least one column,
    /// every color has a shade, and all counts fit the signed arithmetic of
    /// grid navigation.
    pub open spec fn well_formed(&self) -> bool {
        &&& self.columns >= 1
        &&& self.colors@.len() >= 1
        &&& self.columns < 0x4000_0000
        &&& self.colors@.len() < 0x4000_0000
        &&& forall|i: int|
            0 <= i < self.colors@.len() ==> 1 <= (#[trigger] self.colors@[i]).shades@.len()
                < 0x4000_0000
    }

    /// Number of grid rows: the colors divided by the columns, rounded up.
    pub open spec fn spec_rows(&self) -> int {
        (self.colors@.len() + self.columns - 1) / (self.columns as int)
    }

    /// Number of colors per row.
    pub fn columns(&self) -> (n: usize)
        ensures
            n == self.columns,
    {
        self.columns
    }

    /// Number of base colors.
    pub fn color_count(&self) -> (n: usize)
        ensures
            n == self.colors@.len(),
    {
        self.colors.len()
    }

    /// Number of grid rows.
    pub fn rows(&self) -> (n: usize)
        requires
            self.columns >= 1,
            self.colors@.len() + self.columns <= usize::MAX,
        ensures
            n == self.spec_rows(),
    {
        (self.colors.len() + self.columns - 1) / self.columns
    }

    /// The base color at `index`, if any.
    pub fn color_at(&self, index: usize) -> (c: Option<&PaletteColor>)
        ensures
            index < self.colors@.len() ==> c == Some(&self.colors@[index as int]),
            index >= self.colors@.len() ==> c is None,
    {
        if index < self.colors.len() {
            Some(&self.colors[index])
        } else {
            None
        }
    }
}

/// A keyboard layout variant and the number of keys it has.
#[derive(Debug, Clone)]
pub struct LayoutVariant {
    /// Variant name (e.g. `LAYOUT_split_3x6_3`)
    pub name: String,
    /// Number of keys in the variant
    pub key_count: usize,
}

} // verus!
