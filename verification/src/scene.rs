//! The one scene that the window shows, as the sequence of drawing commands
//! that produces it on a surface of a given size.
//!
//! A unit of the surface is one pixel of the render target. Positions are
//! counted in halves of a unit (see `geometry`).

use crate::geometry::{Color, Point, Rect, SizeU, HALVES_PER_UNIT};
use vstd::prelude::*;

verus! {

/// The distance between two neighbouring grid lines, in units.
pub const GRID_STEP: u32 = 10;

/// The width of a grid line: half a unit.
pub const STROKE_WIDTH: i64 = 1;

/// Half the side of the inner square, in units.
pub const INNER_HALF_EXTENT: i64 = 50;

/// Half the side of the outer square, in units.
pub const OUTER_HALF_EXTENT: i64 = 100;

/// The two brushes of the scene, named by their colors.
#[derive(Clone, Copy, Debug, PartialEq, Eq, Structural)]
pub enum Brush {
    /// Draws the grid and fills the inner square.
    LightSlateGray,
    /// Fills the outer square.
    CornflowerBlue,
}

/// One call on the render target.
#[derive(Clone, Copy, Debug, PartialEq, Eq, Structural)]
pub enum DrawCommand {
    /// Opens the draw batch.
    BeginDraw,
    /// Resets the transform to the identity.
    SetTransformIdentity,
    /// Fills the whole surface with one color.
    Clear { color: Color },
    /// Draws a straight line with a brush; the width is in halves of a unit.
    DrawLine { from: Point, to: Point, brush: Brush, stroke_width: i64 },
    /// Fills a rectangle with a brush.
    FillRectangle { rect: Rect, brush: Brush },
    /// Closes the draw batch; the device reports then whether it went well.
    EndDraw,
}

/// The color that the surface is cleared to: opaque white.
pub open spec fn background() -> Color {
    Color::opaque(255, 255, 255)
}

/// The color that each brush is created with.
pub open spec fn brush_color(brush: Brush) -> Color {
    match brush {
        Brush::LightSlateGray => Color::opaque(119, 136, 153),
        Brush::CornflowerBlue => Color::opaque(100, 149, 237),
    }
}

/// How many grid lines cross a side of `extent` units: one at 0 and one every
/// `GRID_STEP` units after it, as long as the position is below `extent`.
pub open spec fn line_count(extent: int) -> int {
    (extent + (GRID_STEP - 1)) / (GRID_STEP as int)
}

/// Where the grid line of a given index stands, in halves of a unit.
pub open spec fn line_position(index: int) -> int {
    index * (GRID_STEP * HALVES_PER_UNIT)
}

/// The vertical grid line of index `i`: from the top edge to the bottom edge.
pub open spec fn vertical_line(i: int, surface: SizeU) -> DrawCommand {
    DrawCommand::DrawLine {
        from: Point { x: line_position(i) as i64, y: 0 },
        to: Point { x: line_position(i) as i64, y: (HALVES_PER_UNIT * surface.height) as i64 },
        brush: Brush::LightSlateGray,
        stroke_width: STROKE_WIDTH,
    }
}

/// The horizontal grid line of index `j`: from the left edge to the right edge.
pub open spec fn horizontal_line(j: int, surface: SizeU) -> DrawCommand {
    DrawCommand::DrawLine {
        from: Point { x: 0, y: line_position(j) as i64 },
        to: Point { x: (HALVES_PER_UNIT * surface.width) as i64, y: line_position(j) as i64 },
        brush: Brush::LightSlateGray,
        stroke_width: STROKE_WIDTH,
    }
}

/// The square whose center is the center of the surface and whose sides are
/// `2 * half_extent` units long. In halves of a unit the center of the surface
/// is `(width, height)`.
pub open spec fn centered_square(surface: SizeU, half_extent: int) -> Rect {
    Rect {
        left: (surface.width - HALVES_PER_UNIT * half_extent) as i64,
        top: (surface.height - HALVES_PER_UNIT * half_extent) as i64,
        right: (surface.width + HALVES_PER_UNIT * half_extent) as i64,
        bottom: (surface.height + HALVES_PER_UNIT * half_extent) as i64,
    }
}

/// What opens every frame: begin, reset the transform, clear to white.
pub open spec fn prologue() -> Seq<DrawCommand> {
    seq![
        DrawCommand::BeginDraw,
        DrawCommand::SetTransformIdentity,
        DrawCommand::Clear { color: background() },
    ]
}

/// What closes every frame: the inner square, the outer square over it, end.
pub open spec fn epilogue(surface: SizeU) -> Seq<DrawCommand> {
    seq![
        DrawCommand::FillRectangle {
            rect: centered_square(surface, INNER_HALF_EXTENT as int),
            brush: Brush::LightSlateGray,
        },
        DrawCommand::FillRectangle {
            rect: centered_square(surface, OUTER_HALF_EXTENT as int),
            brush: Brush::CornflowerBlue,
        },
        DrawCommand::EndDraw,
    ]
}

/// All vertical grid lines of a surface, from left to right.
pub open spec fn vertical_lines(surface: SizeU) -> Seq<DrawCommand> {
    Seq::new(line_count(surface.width as int) as nat, |i: int| vertical_line(i, surface))
}

/// All horizontal grid lines of a surface, from top to bottom.
pub open spec fn horizontal_lines(surface: SizeU) -> Seq<DrawCommand> {
    Seq::new(line_count(surface.height as int) as nat, |j: int| horizontal_line(j, surface))
}

/// The whole frame for a surface, in the order in which it is drawn.
pub open spec fn scene_commands(surface: SizeU) -> Seq<DrawCommand> {
    prologue() + vertical_lines(surface) + horizontal_lines(surface) + epilogue(surface)
}

impl Brush {
    /// The color that this brush is created with.
    pub fn color(&self) -> (color: Color)
        ensures
            color == brush_color(*self),
    {
        match self {
            Brush::LightSlateGray => Color::rgb(119, 136, 153),
            Brush::CornflowerBlue => Color::rgb(100, 149, 237),
        }
    }
}

/// Counts the grid lines that cross a side of `extent` units.
pub fn count_lines(extent: u32) -> (count: u32)
    ensures
        count == line_count(extent as int),
        count as int * 10 >= extent,
        extent > 0 ==> (count as int - 1) * 10 < extent,
{
    let whole: u32 = extent / GRID_STEP;
    if extent % GRID_STEP == 0 {
        whole
    } else {
        whole + 1
    }
}

/// Builds the grid line of a given index across one of the two directions.
fn grid_line(index: u32, surface: SizeU, vertical: bool) -> (line: DrawCommand)
    ensures
        vertical ==> line == vertical_line(index as int, surface),
        !vertical ==> line == horizontal_line(index as int, surface),
{
    let step: i64 = GRID_STEP as i64 * HALVES_PER_UNIT;
    assert(step == 20);
    let at: i64 = index as i64 * step;
    if vertical {
        DrawCommand::DrawLine {
            from: Point { x: at, y: 0 },
            to: Point { x: at, y: HALVES_PER_UNIT * (surface.height as i64) },
            brush: Brush::LightSlateGray,
            stroke_width: STROKE_WIDTH,
        }
    } else {
        DrawCommand::DrawLine {
            from: Point { x: 0, y: at },
            to: Point { x: HALVES_PER_UNIT * (surface.width as i64), y: at },
            brush: Brush::LightSlateGray,
            stroke_width: STROKE_WIDTH,
        }
    }
}

/// Builds the square around the center of the surface.
fn square(surface: SizeU, half_extent: i64) -> (rect: Rect)
    requires
        0 <= half_extent <= OUTER_HALF_EXTENT,
    ensures
        rect == centered_square(surface, half_extent as int),
{
    let reach: i64 = HALVES_PER_UNIT * half_extent;
    Rect {
        left: surface.width as i64 - reach,
        top: surface.height as i64 - reach,
        right: surface.width as i64 + reach,
        bottom: surface.height as i64 + reach,
    }
}

/// The frame for one surface, which hands out its commands by index.
#[derive(Clone, Copy, Debug, PartialEq, Eq, Structural)]
pub struct Scene {
    /// The size of the surface that the frame is drawn on, in units.
    pub surface: SizeU,
}

impl Scene {
    /// The frame for a surface of the given size.
    pub fn new(surface: SizeU) -> (scene: Scene)
        ensures
            scene.surface == surface,
    {
        Scene { surface }
    }

    /// The commands of this frame, in the order in which they are drawn.
    pub open spec fn view(&self) -> Seq<DrawCommand> {
        scene_commands(self.surface)
    }

    /// The number of vertical grid lines.
    pub fn vertical_line_count(&self) -> (count: u32)
        ensures
            count == line_count(self.surface.width as int),
            count == vertical_lines(self.surface).len(),
    {
        count_lines(self.surface.width)
    }

    /// The number of horizontal grid lines.
    pub fn horizontal_line_count(&self) -> (count: u32)
        ensures
            count == line_count(self.surface.height as int),
            count == horizontal_lines(self.surface).len(),
    {
        count_lines(self.surface.height)
    }

    /// The number of commands in this frame.
    pub fn len(&self) -> (n: u64)
        ensures
            n == self@.len(),
            n == 6 + line_count(self.surface.width as int) + line_count(
                self.surface.height as int,
            ),
    {
        3 + self.vertical_line_count() as u64 + self.horizontal_line_count() as u64 + 3
    }

    /// The command at `index`, or `None` where the frame has no such command.
    pub fn command(&self, index: u64) -> (command: Option<DrawCommand>)
        ensures
            index < self@.len() ==> command == Some(self@[index as int]),
            index >= self@.len() ==> command.is_none(),
    {
        let columns: u64 = self.vertical_line_count() as u64;
        let rows: u64 = self.horizontal_line_count() as u64;
        if index == 0 {
            Some(DrawCommand::BeginDraw)
        } else if index == 1 {
            Some(DrawCommand::SetTransformIdentity)
        } else if index == 2 {
            Some(DrawCommand::Clear { color: Color::rgb(255, 255, 255) })
        } else if index - 3 < columns {
            Some(grid_line((index - 3) as u32, self.surface, true))
        } else if index - 3 - columns < rows {
            Some(grid_line((index - 3 - columns) as u32, self.surface, false))
        } else if index - 3 - columns - rows == 0 {
            Some(
                DrawCommand::FillRectangle {
                    rect: square(self.surface, INNER_HALF_EXTENT),
                    brush: Brush::LightSlateGray,
                },
            )
        } else if index - 3 - columns - rows == 1 {
            Some(
                DrawCommand::FillRectangle {
                    rect: square(self.surface, OUTER_HALF_EXTENT),
                    brush: Brush::CornflowerBlue,
                },
            )
        } else if index - 3 - columns - rows == 2 {
            Some(DrawCommand::EndDraw)
        } else {
            None
        }
    }

    /// All commands of this frame, in the order in which they are drawn.
    pub fn commands(&self) -> (all: Vec<DrawCommand>)
        ensures
            all@ == self@,
    {
        let n: u64 = self.len();
        let mut all: Vec<DrawCommand> = Vec::new();
        let mut index: u64 = 0;
        while index < n
            invariant
                n == self@.len(),
                index <= n,
                all@ == self@.subrange(0, index as int),
            decreases n - index,
        {
            let next = self.command(index);
            match next {
                Some(command) => {
                    all.push(command);
                },
                None => {},
            }
            index = index + 1;
        }
        all
    }
}

/// The grid has as many lines across a side as the side's length divided by
/// the grid step, rounded up: the least count whose last line would stand at or
/// beyond the far edge. Line `i` stands `i` steps from the near edge and runs
/// the whole length of the other side.
pub proof fn lemma_grid_lines(surface: SizeU)
    ensures
        vertical_lines(surface).len() == line_count(surface.width as int),
        horizontal_lines(surface).len() == line_count(surface.height as int),
        line_count(surface.width as int) * GRID_STEP >= surface.width,
        (line_count(surface.width as int) - 1) * GRID_STEP < surface.width,
        line_count(surface.height as int) * GRID_STEP >= surface.height,
        (line_count(surface.height as int) - 1) * GRID_STEP < surface.height,
        forall|i: int|
            0 <= i < line_count(surface.width as int) ==> {
                &&& #[trigger] scene_commands(surface)[3 + i] == vertical_line(i, surface)
                &&& 0 <= line_position(i) < HALVES_PER_UNIT * surface.width
                &&& line_position(i) == HALVES_PER_UNIT * (i * GRID_STEP)
            },
        forall|j: int|
            0 <= j < line_count(surface.height as int) ==> {
                &&& #[trigger] scene_commands(surface)[3 + line_count(surface.width as int) + j]
                    == horizontal_line(j, surface)
                &&& 0 <= line_position(j) < HALVES_PER_UNIT * surface.height
                &&& line_position(j) == HALVES_PER_UNIT * (j * GRID_STEP)
            },
{
}

/// The two squares share the center of the surface, whatever its size: the
/// inner one reaches `INNER_HALF_EXTENT` units from it on every side, the outer
/// one `OUTER_HALF_EXTENT`. They are the last two things drawn, the outer one
/// after the inner one.
pub proof fn lemma_squares_concentric(surface: SizeU)
    ensures
        ({
            let inner = centered_square(surface, INNER_HALF_EXTENT as int);
            let outer = centered_square(surface, OUTER_HALF_EXTENT as int);
            let n = scene_commands(surface).len();
            &&& inner.left + inner.right == HALVES_PER_UNIT * surface.width
            &&& inner.top + inner.bottom == HALVES_PER_UNIT * surface.height
            &&& outer.left + outer.right == inner.left + inner.right
            &&& outer.top + outer.bottom == inner.top + inner.bottom
            &&& inner.right - inner.left == 2 * (HALVES_PER_UNIT * INNER_HALF_EXTENT)
            &&& inner.bottom - inner.top == 2 * (HALVES_PER_UNIT * INNER_HALF_EXTENT)
            &&& outer.right - outer.left == 2 * (HALVES_PER_UNIT * OUTER_HALF_EXTENT)
            &&& outer.bottom - outer.top == 2 * (HALVES_PER_UNIT * OUTER_HALF_EXTENT)
            &&& scene_commands(surface)[n - 3] == (DrawCommand::FillRectangle {
                rect: inner,
                brush: Brush::LightSlateGray,
            })
            &&& scene_commands(surface)[n - 2] == (DrawCommand::FillRectangle {
                rect: outer,
                brush: Brush::CornflowerBlue,
            })
            &&& scene_commands(surface)[n - 1] == DrawCommand::EndDraw
        }),
{
}

} // verus!
