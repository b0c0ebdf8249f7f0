//! Movement in the continuous world: grid steps along the facing
//! direction, and the render transform of a position.
//!
//! World coordinates are whole numbers of a unit that the host chooses.
//! They stay within the 32-bit range, where every position has a render
//! transform; a step that would leave this range stops at its border.

use crate::direction::Direction;
use vstd::prelude::*;

verus! {

/// A position in the continuous world.
#[derive(Clone, Copy, Debug, PartialEq, Eq, Structural)]
pub struct WorldPosition {
    pub x: i32,
    pub y: i32,
}

/// Where a position is drawn on the screen.
#[derive(Clone, Copy, Debug, PartialEq, Eq, Structural)]
pub struct RenderTransform {
    pub x: i64,
    pub y: i64,
}

/// The extent of the world, the grid laid over it, and the scale and
/// offset that take a world coordinate to a screen coordinate.
#[derive(Clone, Copy, Debug, PartialEq, Eq, Structural)]
pub struct Layout {
    /// Extent of the world from left to right, in world units.
    pub world_width: u32,
    /// Extent of the world from bottom to top, in world units.
    pub world_height: u32,
    /// Number of grid cells from left to right.
    pub grid_cols: u32,
    /// Number of grid cells from bottom to top.
    pub grid_rows: u32,
    /// Screen units for one world unit, horizontally.
    pub scale_x: i32,
    /// Screen units for one world unit, vertically; negative where the
    /// screen counts downwards.
    pub scale_y: i32,
    /// Horizontal screen coordinate of the world's origin.
    pub offset_x: i32,
    /// Vertical screen coordinate of the world's origin.
    pub offset_y: i32,
}

/// Width of the world when nothing else is configured.
pub const DEFAULT_WORLD_WIDTH: u32 = 768;

/// Height of the world when nothing else is configured.
pub const DEFAULT_WORLD_HEIGHT: u32 = 400;

/// Number of grid columns when nothing else is configured.
pub const DEFAULT_GRID_COLS: u32 = 96;

/// Number of grid rows when nothing else is configured.
pub const DEFAULT_GRID_ROWS: u32 = 50;

impl Default for Layout {
    fn default() -> (layout: Layout)
        ensures
            layout == Layout::spec_default(),
            layout.wf(),
    {
        Layout {
            world_width: DEFAULT_WORLD_WIDTH,
            world_height: DEFAULT_WORLD_HEIGHT,
            grid_cols: DEFAULT_GRID_COLS,
            grid_rows: DEFAULT_GRID_ROWS,
            scale_x: 1,
            scale_y: 1,
            offset_x: 0,
            offset_y: 0,
        }
    }
}

/// The coordinate nearest to `v` that a position can hold.
pub open spec fn clamp_coordinate(v: int) -> int {
    if v < i32::MIN {
        i32::MIN as int
    } else if v > i32::MAX {
        i32::MAX as int
    } else {
        v
    }
}

impl Layout {
    /// The layout when nothing else is configured: a world of
    /// `DEFAULT_WORLD_WIDTH` by `DEFAULT_WORLD_HEIGHT` units under a grid
    /// of `DEFAULT_GRID_COLS` by `DEFAULT_GRID_ROWS` cells, drawn where it
    /// lies.
    pub open spec fn spec_default() -> Layout {
        Layout {
            world_width: DEFAULT_WORLD_WIDTH,
            world_height: DEFAULT_WORLD_HEIGHT,
            grid_cols: DEFAULT_GRID_COLS,
            grid_rows: DEFAULT_GRID_ROWS,
            scale_x: 1,
            scale_y: 1,
            offset_x: 0,
            offset_y: 0,
        }
    }

    /// A layout is usable when its grid has at least one column and one
    /// row, so that the size of a cell is defined.
    pub open spec fn wf(self) -> bool {
        self.grid_cols > 0 && self.grid_rows > 0
    }

    /// The width of a grid cell, in whole units: the length of a step to
    /// the left or right.
    pub open spec fn spec_step_x(self) -> int {
        self.world_width as int / self.grid_cols as int
    }

    /// The height of a grid cell, in whole units: the length of a step up
    /// or down.
    pub open spec fn spec_step_y(self) -> int {
        self.world_height as int / self.grid_rows as int
    }

    /// The render transform of a position: each coordinate is scaled, then
    /// offset.
    pub open spec fn spec_project(self, position: WorldPosition) -> RenderTransform {
        RenderTransform {
            x: (self.scale_x * position.x + self.offset_x) as i64,
            y: (self.scale_y * position.y + self.offset_y) as i64,
        }
    }

    /// Whether the grid has a column and a row.
    pub fn is_valid(&self) -> (b: bool)
        ensures
            b == self.wf(),
    {
        self.grid_cols > 0 && self.grid_rows > 0
    }

    /// Returns the length of a horizontal step.
    pub fn step_x(&self) -> (step: u32)
        requires
            self.wf(),
        ensures
            step == self.spec_step_x(),
    {
        self.world_width / self.grid_cols
    }

    /// Returns the length of a vertical step.
    pub fn step_y(&self) -> (step: u32)
        requires
            self.wf(),
        ensures
            step == self.spec_step_y(),
    {
        self.world_height / self.grid_rows
    }

    /// Returns the render transform of `position`.
    pub fn project(&self, position: WorldPosition) -> (transform: RenderTransform)
        ensures
            transform == self.spec_project(position),
            transform.x == self.scale_x * position.x + self.offset_x,
            transform.y == self.scale_y * position.y + self.offset_y,
    {
        proof {
            lemma_product_fits(self.scale_x as int, position.x as int);
            lemma_product_fits(self.scale_y as int, position.y as int);
        }
        RenderTransform {
            x: self.scale_x as i64 * position.x as i64 + self.offset_x as i64,
            y: self.scale_y as i64 * position.y as i64 + self.offset_y as i64,
        }
    }
}

/// The product of two 32-bit numbers leaves room in 64 bits.
proof fn lemma_product_fits(a: int, b: int)
    requires
        i32::MIN <= a <= i32::MAX,
        i32::MIN <= b <= i32::MAX,
    ensures
        -0x4000_0000_0000_0000 <= a * b <= 0x4000_0000_0000_0000,
{
    assert(-0x4000_0000_0000_0000 <= a * b <= 0x4000_0000_0000_0000) by (nonlinear_arith)
        requires
            -0x8000_0000 <= a <= 0x8000_0000,
            -0x8000_0000 <= b <= 0x8000_0000,
    ;
}

impl WorldPosition {
    /// The position one grid step away in the direction `facing`: down
    /// lowers and up raises the vertical coordinate by the height of a
    /// cell, left lowers and right raises the horizontal coordinate by the
    /// width of a cell. The coordinate stops at the border of the range.
    pub open spec fn spec_step(self, facing: Direction, layout: Layout) -> WorldPosition {
        match facing {
            Direction::Down => WorldPosition {
                y: clamp_coordinate(self.y - layout.spec_step_y()) as i32,
                ..self
            },
            Direction::Up => WorldPosition {
                y: clamp_coordinate(self.y + layout.spec_step_y()) as i32,
                ..self
            },
            Direction::Left => WorldPosition {
                x: clamp_coordinate(self.x - layout.spec_step_x()) as i32,
                ..self
            },
            Direction::Right => WorldPosition {
                x: clamp_coordinate(self.x + layout.spec_step_x()) as i32,
                ..self
            },
        }
    }

    /// Returns the position one grid step away in the direction `facing`.
    pub fn step(self, facing: Direction, layout: &Layout) -> (moved: WorldPosition)
        requires
            layout.wf(),
        ensures
            moved == self.spec_step(facing, *layout),
    {
        match facing {
            Direction::Down => WorldPosition {
                x: self.x,
                y: clamp_to_coordinate(self.y as i64 - layout.step_y() as i64),
            },
            Direction::Up => WorldPosition {
                x: self.x,
                y: clamp_to_coordinate(self.y as i64 + layout.step_y() as i64),
            },
            Direction::Left => WorldPosition {
                x: clamp_to_coordinate(self.x as i64 - layout.step_x() as i64),
                y: self.y,
            },
            Direction::Right => WorldPosition {
                x: clamp_to_coordinate(self.x as i64 + layout.step_x() as i64),
                y: self.y,
            },
        }
    }
}

/// Returns the coordinate nearest to `v` that a position can hold.
fn clamp_to_coordinate(v: i64) -> (c: i32)
    ensures
        c == clamp_coordinate(v as int),
{
    if v < i32::MIN as i64 {
        i32::MIN
    } else if v > i32::MAX as i64 {
        i32::MAX
    } else {
        v as i32
    }
}

/// Away from the border of the coordinate range a step moves by exactly
/// one cell: down and up change only the vertical coordinate, by the
/// world's height divided by the number of rows; left and right change
/// only the horizontal coordinate, by the world's width divided by the
/// number of columns.
pub proof fn lemma_step_is_one_cell(position: WorldPosition, facing: Direction, layout: Layout)
    requires
        layout.wf(),
        facing == Direction::Down ==> position.y - layout.spec_step_y() >= i32::MIN,
        facing == Direction::Up ==> position.y + layout.spec_step_y() <= i32::MAX,
        facing == Direction::Left ==> position.x - layout.spec_step_x() >= i32::MIN,
        facing == Direction::Right ==> position.x + layout.spec_step_x() <= i32::MAX,
    ensures
        ({
            let moved = position.spec_step(facing, layout);
            let cell_width = layout.world_width as int / layout.grid_cols as int;
            let cell_height = layout.world_height as int / layout.grid_rows as int;
            match facing {
                Direction::Down => moved.x == position.x && moved.y == position.y - cell_height,
                Direction::Up => moved.x == position.x && moved.y == position.y + cell_height,
                Direction::Left => moved.y == position.y && moved.x == position.x - cell_width,
                Direction::Right => moved.y == position.y && moved.x == position.x + cell_width,
            }
        }),
{
}

/// A step up followed by a step down ends where it began, and so does a
/// step to the right followed by a step to the left, unless the first
/// step is cut short at the border of the coordinate range.
pub proof fn lemma_opposite_steps_cancel(position: WorldPosition, layout: Layout)
    requires
        layout.wf(),
    ensures
        position.y + layout.spec_step_y() <= i32::MAX ==> position.spec_step(
            Direction::Up,
            layout,
        ).spec_step(Direction::Down, layout) == position,
        position.y - layout.spec_step_y() >= i32::MIN ==> position.spec_step(
            Direction::Down,
            layout,
        ).spec_step(Direction::Up, layout) == position,
        position.x + layout.spec_step_x() <= i32::MAX ==> position.spec_step(
            Direction::Right,
            layout,
        ).spec_step(Direction::Left, layout) == position,
        position.x - layout.spec_step_x() >= i32::MIN ==> position.spec_step(
            Direction::Left,
            layout,
        ).spec_step(Direction::Right, layout) == position,
{
}

} // verus!
