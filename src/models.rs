//! The value types of a capture session.

use vstd::prelude::*;
use crate::geometry::{Endpoints, Point};

verus! {

/// The kind of figure a shape draws.
#[derive(Clone, Copy, Debug, PartialEq, Eq, Structural)]
pub enum ShapeType {
    Rectangle,
    Ellipse,
    Line,
    Arrow,
}

/// Stroke width of an outlined shape.
#[derive(Clone, Copy, Debug, PartialEq, Eq, Structural)]
pub enum ShapeStroke {
    Thin,
    Medium,
    Broad,
}

/// The fixed palette of shape colors.
#[derive(Clone, Copy, Debug, PartialEq, Eq, Structural)]
pub enum ShapeColor {
    Red,
    Green,
    Blue,
    Yellow,
    Black,
    White,
}

/// One annotation. With `endpoints == None` it is the style template of the
/// next shape, not yet dragged into existence.
#[derive(Clone, Copy, Debug, PartialEq, Eq, Structural)]
pub struct Shape {
    pub shape_type: ShapeType,
    pub is_filled: bool,
    /// Solid stroke when set, translucent highlight otherwise.
    pub is_solid: bool,
    pub stroke_width: ShapeStroke,
    pub color: ShapeColor,
    pub endpoints: Option<Endpoints>,
}

/// How the region to export is chosen.
#[derive(Clone, Copy, Debug, PartialEq, Eq, Structural)]
pub enum CropMode {
    /// The whole image.
    FullScreen,
    /// The bounds of the catalog window with this id.
    SpecificWindow(u32),
    /// A rectangle that is being dragged.
    SelectionInProgress,
    /// A dragged rectangle that has been released.
    ManualSelection,
}

/// The top-level phase of a session.
#[derive(Clone, Copy, Debug, PartialEq, Eq, Structural)]
pub enum Mode {
    Crop,
    Draw,
}

/// A window found on screen when the capture was taken.
#[derive(Debug)]
pub struct CapturedWindow {
    pub name: String,
    pub x: i32,
    pub y: i32,
    pub width: u32,
    pub height: u32,
}

impl CapturedWindow {
    /// Top-left corner of the window's bounds.
    pub open spec fn spec_top_left(&self) -> Point {
        Point { x: self.x as i64, y: self.y as i64 }
    }

    /// Bottom-right corner of the window's bounds (just outside them).
    pub open spec fn spec_bottom_right(&self) -> Point {
        Point { x: (self.x + self.width) as i64, y: (self.y + self.height) as i64 }
    }

    pub open spec fn covers(&self, p: Point) -> bool {
        crate::geometry::in_box(self.spec_top_left(), self.spec_bottom_right(), p)
    }

    pub fn top_left(&self) -> (r: Point)
        ensures
            r == self.spec_top_left(),
    {
        Point { x: self.x as i64, y: self.y as i64 }
    }

    pub fn bottom_right(&self) -> (r: Point)
        ensures
            r == self.spec_bottom_right(),
    {
        Point { x: self.x as i64 + self.width as i64, y: self.y as i64 + self.height as i64 }
    }
}

/// An interaction event. `Undo`, `Done` and `Cancel` are the same three
/// toolbar actions in both modes and mean different things in each.
#[derive(Clone, Copy, Debug, PartialEq, Eq, Structural)]
pub enum CaptureEvent {
    Undo,
    Done,
    Cancel,
    /// Shape type, filled, solid.
    ChooseShapeType(ShapeType, bool, bool),
    ChangeStroke(ShapeStroke),
    ChangeColor(ShapeColor),
    /// The mouse button went down at the cursor.
    SetInitialPoint,
    /// The cursor moved to this point.
    UpdateCurrentPosition(Point),
    /// The mouse button went up at the cursor.
    SetFinalPoint,
}

/// What the host has to do after an event.
#[derive(Clone, Copy, Debug, PartialEq, Eq, Structural)]
pub enum SessionCommand {
    /// Tear the capture window down and export what was selected and drawn.
    Close,
}

} // verus!
