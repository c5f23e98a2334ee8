//! A compositional rendering engine for character-grid displays: a tree of
//! views produces relative cell writes that are translated, clipped,
//! depth-composited and colour-adapted on their way into a sink.

pub mod align;
pub mod border;
pub mod bound;
pub mod cell;
pub mod colour;
pub mod context;
pub mod fill_background;
pub mod frame;
pub mod geometry;
pub mod grid;
pub mod laws;
pub mod pad;
pub mod text;
pub mod vertical_scroll;
pub mod view;

pub use cell::{Style, ViewCell};
pub use colour::{ColModify, Rgb24};
pub use context::ViewContext;
pub use frame::{
    set_cell_relative_to_draw, set_cell_relative_to_measure_size, Frame, MeasureBounds,
    MeasureBoundsAndDraw,
};
pub use align::{AlignDirection, Alignment, AlignView};
pub use border::{Border, BorderChars, BorderPadding, BorderView};
pub use bound::BoundView;
pub use fill_background::FillBackgroundView;
pub use grid::Grid;
pub use pad::PadView;
pub use vertical_scroll::{VerticalScrollLimits, VerticalScrollState, VerticalScrollView};
pub use view::CellView;
pub use geometry::{Coord, NegativeExtent, Size};

