//! Draw primitives: the atomic instructions a paint backend consumes. A
//! render pass produces an ordered sequence of them; later entries paint
//! over earlier ones.

use vstd::prelude::*;

use crate::geometry::Bounds;

verus! {

/// An opaque colour with eight-bit red, green and blue components.
#[derive(Clone, Copy, Debug, PartialEq, Eq, Structural)]
pub struct ColorRgb {
    pub r: u8,
    pub g: u8,
    pub b: u8,
}

/// How a label's text is aligned inside its bounds, on either axis.
#[derive(Clone, Copy, Debug, PartialEq, Eq, Structural)]
pub enum TextAlign {
    Start,
    Center,
    End,
}

/// One atomic drawable instruction. All lengths are deci-pixels.
#[derive(Clone, Copy, Debug, PartialEq, Eq, Structural)]
pub enum Primitive {
    /// A filled rectangle.
    Rect { bounds: Bounds, color: ColorRgb },
    /// A one-character text label; `font_size` is in deci-pixels as well.
    Label {
        text: char,
        bounds: Bounds,
        font_size: u64,
        color: ColorRgb,
        h_align: TextAlign,
        v_align: TextAlign,
    },
    /// A vector-image sprite, identified by its catalog handle.
    Sprite { bounds: Bounds, handle: u64 },
}

/// The composite primitive a render pass returns: its children painted in
/// order.
#[derive(Clone, Debug)]
pub struct PrimitiveGroup {
    pub primitives: Vec<Primitive>,
}

impl View for PrimitiveGroup {
    type V = Seq<Primitive>;

    open spec fn view(&self) -> Seq<Primitive> {
        self.primitives@
    }
}

/// The pointer-interaction hint a render pass returns beside the primitives.
/// This board is not pointer-interactive, so rendering always reports the
/// idle hint; richer hints are an extension point.
#[derive(Clone, Copy, Debug, PartialEq, Eq, Structural)]
pub enum PointerHint {
    Idle,
}

/// The fixed colour of the border background behind the board.
pub open spec fn background_color() -> ColorRgb {
    ColorRgb { r: 214, g: 59, b: 96 }
}

/// The fixed colour of the light cells. Cell colours do not depend on the
/// orientation.
pub open spec fn light_cell_color() -> ColorRgb {
    ColorRgb { r: 255, g: 206, b: 158 }
}

/// The fixed colour of the dark cells.
pub open spec fn dark_cell_color() -> ColorRgb {
    ColorRgb { r: 209, g: 139, b: 71 }
}

/// The fixed colour of the coordinate labels.
pub open spec fn label_color() -> ColorRgb {
    ColorRgb { r: 255, g: 199, b: 0 }
}

} // verus!
