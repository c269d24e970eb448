//! Mathematical and geometrical abstractions with a focus on ergonomics,
//! and a flat-buffer grid that addresses rectangular regions of cells.

pub mod bounds;
pub mod bounds_ops;
pub mod grid;
pub mod layout;
pub mod magnitude;
pub mod offset;
pub mod point;
pub mod size;
pub mod size_ops;
pub mod storage;
pub mod vector;
pub mod vector_ops;

pub use crate::bounds::{Bounds2D, IntoBounds2D};
pub use crate::grid::{index_at, row_ranges, Grid2D, GridError};
pub use crate::magnitude::Magnitude;
pub use crate::offset::{Offset, Offset2D, ToOffset2D};
pub use crate::point::{Point, Point2D, ToPoint2D};
pub use crate::size::{Size2D, ToSize2D};
pub use crate::storage::Interpretation2D;
pub use crate::vector::{ToVector2D, Vector, Vector2D};
