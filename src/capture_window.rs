//! A capture session: the Crop/Draw state machine that every interaction
//! event goes through.

use vstd::prelude::*;
use indexmap::IndexMap;
use crate::catalog::{find_at, first_hit, window_at, window_list};
use crate::geometry::{extent, Endpoints, Point};
use crate::label::{size_label, size_text};
use crate::models::{
    CaptureEvent, CapturedWindow, CropMode, Mode, SessionCommand, Shape, ShapeColor, ShapeStroke,
    ShapeType,
};

verus! {

/// The state of one capture session.
pub struct CaptureWindow {
    pub crop_mode: CropMode,
    /// Status text shown in Crop mode.
    pub mode_desc: String,
    /// The windows on screen, read-only for the whole session.
    pub windows: IndexMap<u32, CapturedWindow>,
    pub cursor_position: Point,
    pub mode: Mode,
    /// The crop rectangle's corners.
    pub endpoints: Endpoints,
    /// The style of the next shape; its endpoints are set while it is dragged.
    pub shape: Shape,
    /// Committed shapes, bottom to top.
    pub shapes: Vec<Shape>,
    /// Set whenever the committed shapes change; the renderer clears it.
    pub cache_stale: bool,
}

/// What a session holds, as mathematical values.
pub struct SessionView {
    pub crop_mode: CropMode,
    pub mode_desc: Seq<char>,
    pub windows: Seq<(u32, CapturedWindow)>,
    pub cursor_position: Point,
    pub mode: Mode,
    pub endpoints: Endpoints,
    pub shape: Shape,
    pub shapes: Seq<Shape>,
    pub cache_stale: bool,
}

impl View for CaptureWindow {
    type V = SessionView;

    open spec fn view(&self) -> SessionView {
        SessionView {
            crop_mode: self.crop_mode,
            mode_desc: self.mode_desc@,
            windows: window_list(self.windows),
            cursor_position: self.cursor_position,
            mode: self.mode,
            endpoints: self.endpoints,
            shape: self.shape,
            shapes: self.shapes@,
            cache_stale: self.cache_stale,
        }
    }
}

/// The template a session starts with.
pub open spec fn initial_shape() -> Shape {
    Shape {
        shape_type: ShapeType::Rectangle,
        is_filled: false,
        is_solid: true,
        stroke_width: ShapeStroke::Medium,
        color: ShapeColor::Red,
        endpoints: None,
    }
}

/// The two corners of the box of window `w`.
pub open spec fn window_box(w: CapturedWindow) -> Endpoints {
    Endpoints { initial_pt: w.spec_top_left(), final_pt: w.spec_bottom_right() }
}

/// Releasing a crop drag: a drag that moved becomes a manual selection ending
/// at the cursor; one that did not is no selection at all.
pub open spec fn release_selection(m: SessionView) -> SessionView {
    if m.endpoints.initial_pt != m.cursor_position {
        SessionView {
            endpoints: Endpoints { final_pt: m.cursor_position, ..m.endpoints },
            crop_mode: CropMode::ManualSelection,
            ..m
        }
    } else {
        SessionView { crop_mode: CropMode::FullScreen, ..m }
    }
}

/// Leaving Crop mode releases a drag that is still in progress.
pub open spec fn leave_crop(m: SessionView) -> SessionView {
    if m.mode == Mode::Crop && m.crop_mode == CropMode::SelectionInProgress {
        release_selection(m)
    } else {
        m
    }
}

/// The cursor moving to `p` (already stored in `m`) while in Crop mode.
pub open spec fn crop_track(m: SessionView, p: Point) -> SessionView {
    match m.crop_mode {
        CropMode::FullScreen | CropMode::SpecificWindow(_) => match first_hit(m.windows, p) {
            Some(j) => SessionView {
                endpoints: window_box(m.windows[j].1),
                crop_mode: CropMode::SpecificWindow(m.windows[j].0),
                mode_desc: m.windows[j].1.name@,
                ..m
            },
            None => SessionView { crop_mode: CropMode::FullScreen, mode_desc: "FullScreen"@, ..m },
        },
        CropMode::SelectionInProgress => {
            let e = Endpoints { final_pt: p, ..m.endpoints };
            SessionView {
                endpoints: e,
                mode_desc: size_text(extent(e).0, extent(e).1),
                ..m
            }
        },
        CropMode::ManualSelection => m,
    }
}

/// The shape template with its endpoints cleared.
pub open spec fn without_endpoints(s: Shape) -> Shape {
    Shape { endpoints: None, ..s }
}

/// The committed shapes without the last one; unchanged when there is none.
pub open spec fn undo_last(s: Seq<Shape>) -> Seq<Shape> {
    if s.len() > 0 { s.drop_last() } else { s }
}

/// The effect of one event: the next state, and whether the session closes.
pub open spec fn step(m: SessionView, e: CaptureEvent) -> (SessionView, Option<SessionCommand>) {
    match e {
        CaptureEvent::Undo => if m.mode == Mode::Draw {
            (SessionView { shapes: undo_last(m.shapes), cache_stale: true, ..m }, None)
        } else {
            (SessionView { crop_mode: CropMode::FullScreen, ..m }, None)
        },
        CaptureEvent::Done => if m.mode == Mode::Draw {
            (SessionView { shape: without_endpoints(m.shape), ..m }, Some(SessionCommand::Close))
        } else {
            (SessionView { mode: Mode::Draw, ..leave_crop(m) }, None)
        },
        CaptureEvent::Cancel => if m.mode == Mode::Draw {
            (
                SessionView {
                    shapes: Seq::empty(),
                    cache_stale: true,
                    mode: Mode::Crop,
                    shape: without_endpoints(m.shape),
                    ..m
                },
                None,
            )
        } else {
            (m, Some(SessionCommand::Close))
        },
        CaptureEvent::ChooseShapeType(t, filled, solid) => {
            let l = leave_crop(m);
            (
                SessionView {
                    mode: Mode::Draw,
                    shape: Shape {
                        shape_type: t,
                        is_filled: filled,
                        is_solid: solid,
                        endpoints: None,
                        ..m.shape
                    },
                    ..l
                },
                None,
            )
        },
        CaptureEvent::ChangeStroke(w) => (
            SessionView { shape: Shape { stroke_width: w, ..m.shape }, ..m },
            None,
        ),
        CaptureEvent::ChangeColor(c) => (
            SessionView { shape: Shape { color: c, ..m.shape }, ..m },
            None,
        ),
        CaptureEvent::SetInitialPoint => {
            let here = Endpoints { initial_pt: m.cursor_position, final_pt: m.cursor_position };
            if m.mode == Mode::Draw {
                (SessionView { shape: Shape { endpoints: Some(here), ..m.shape }, ..m }, None)
            } else {
                (SessionView { crop_mode: CropMode::SelectionInProgress, endpoints: here, ..m }, None)
            }
        },
        CaptureEvent::UpdateCurrentPosition(p) => {
            let moved = SessionView { cursor_position: p, ..m };
            if m.mode == Mode::Draw {
                match m.shape.endpoints {
                    Some(d) => (
                        SessionView {
                            shape: Shape {
                                endpoints: Some(Endpoints { final_pt: p, ..d }),
                                ..m.shape
                            },
                            ..moved
                        },
                        None,
                    ),
                    None => (moved, None),
                }
            } else {
                (crop_track(moved, p), None)
            }
        },
        CaptureEvent::SetFinalPoint => if m.mode == Mode::Draw {
            match m.shape.endpoints {
                Some(_) => (
                    SessionView {
                        shapes: m.shapes.push(m.shape),
                        cache_stale: true,
                        shape: without_endpoints(m.shape),
                        ..m
                    },
                    None,
                ),
                None => (m, None),
            }
        } else {
            (release_selection(m), None)
        },
    }
}

/// The state invariants that every event keeps: a snapped window is in the
/// catalog, only committed shapes and the shape being dragged have
/// endpoints, and no crop drag is pending in Draw mode.
pub open spec fn consistent(m: SessionView) -> bool {
    &&& m.crop_mode matches CropMode::SpecificWindow(id) ==> exists|j: int|
        0 <= j < m.windows.len() && #[trigger] m.windows[j].0 == id
    &&& m.mode == Mode::Crop ==> m.shape.endpoints is None
    &&& m.mode == Mode::Draw ==> m.crop_mode != CropMode::SelectionInProgress
    &&& forall|i: int| 0 <= i < m.shapes.len() ==> (#[trigger] m.shapes[i]).endpoints is Some
}

impl CaptureWindow {
    /// A session over the given window catalog: Crop mode, the whole screen
    /// selected, no shapes.
    pub fn new(windows: IndexMap<u32, CapturedWindow>) -> (r: CaptureWindow)
        ensures
            r@.crop_mode == CropMode::FullScreen,
            r@.mode_desc == "FullScreen"@,
            r@.windows == window_list(windows),
            r@.cursor_position == (Point { x: 0, y: 0 }),
            r@.mode == Mode::Crop,
            r@.endpoints == (Endpoints { initial_pt: Point { x: 0, y: 0 }, final_pt: Point { x: 0, y: 0 } }),
            r@.shape == initial_shape(),
            r@.shapes.len() == 0,
            !r@.cache_stale,
            consistent(r@),
    {
        let origin = Point { x: 0, y: 0 };
        CaptureWindow {
            crop_mode: CropMode::FullScreen,
            mode_desc: "FullScreen".to_owned(),
            windows,
            cursor_position: origin,
            mode: Mode::Crop,
            endpoints: Endpoints { initial_pt: origin, final_pt: origin },
            shape: Shape {
                shape_type: ShapeType::Rectangle,
                is_filled: false,
                is_solid: true,
                stroke_width: ShapeStroke::Medium,
                color: ShapeColor::Red,
                endpoints: None,
            },
            shapes: Vec::new(),
            cache_stale: false,
        }
    }

    fn release_selection(&mut self)
        ensures
            final(self)@ == release_selection(old(self)@),
    {
        if self.endpoints.initial_pt != self.cursor_position {
            self.endpoints.final_pt = self.cursor_position;
            self.crop_mode = CropMode::ManualSelection;
        } else {
            self.crop_mode = CropMode::FullScreen;
        }
    }

    fn leave_crop(&mut self)
        ensures
            final(self)@ == leave_crop(old(self)@),
    {
        if self.mode == Mode::Crop && self.crop_mode == CropMode::SelectionInProgress {
            self.release_selection();
        }
    }

    fn crop_track(&mut self, p: Point)
        ensures
            final(self)@ == crop_track(old(self)@, p),
    {
        match self.crop_mode {
            CropMode::FullScreen | CropMode::SpecificWindow(_) => {
                match find_at(&self.windows, p) {
                    Some(j) => {
                        if let Some((id, w)) = window_at(&self.windows, j) {
                            let name = w.name.clone();
                            let tl = w.top_left();
                            let br = w.bottom_right();
                            self.endpoints = Endpoints { initial_pt: tl, final_pt: br };
                            self.crop_mode = CropMode::SpecificWindow(id);
                            self.mode_desc = name;
                        }
                    },
                    None => {
                        self.crop_mode = CropMode::FullScreen;
                        self.mode_desc = "FullScreen".to_owned();
                    },
                }
            },
            CropMode::SelectionInProgress => {
                self.endpoints.final_pt = p;
                let (w, h) = self.endpoints.size();
                self.mode_desc = size_label(w, h);
            },
            CropMode::ManualSelection => {},
        }
    }

    /// Handles one interaction event, as `step` describes it. The result is
    /// `Some(SessionCommand::Close)` when the session is over.
    pub fn update(&mut self, message: CaptureEvent) -> (r: Option<SessionCommand>)
        ensures
            (final(self)@, r) == step(old(self)@, message),
            consistent(old(self)@) ==> consistent(final(self)@),
    {
        proof {
            if consistent(self@) {
                crate::laws::lemma_step_keeps_consistent(self@, message);
            }
        }
        match message {
            CaptureEvent::Undo => {
                if self.mode == Mode::Draw {
                    self.shapes.pop();
                    self.cache_stale = true;
                } else {
                    self.crop_mode = CropMode::FullScreen;
                }
                None
            },
            CaptureEvent::Done => {
                if self.mode == Mode::Draw {
                    self.shape.endpoints = None;
                    Some(SessionCommand::Close)
                } else {
                    self.leave_crop();
                    self.mode = Mode::Draw;
                    None
                }
            },
            CaptureEvent::Cancel => {
                if self.mode == Mode::Draw {
                    self.shapes.clear();
                    self.cache_stale = true;
                    self.mode = Mode::Crop;
                    self.shape.endpoints = None;
                    None
                } else {
                    Some(SessionCommand::Close)
                }
            },
            CaptureEvent::ChooseShapeType(shape_type, is_filled, is_solid) => {
                self.leave_crop();
                self.mode = Mode::Draw;
                self.shape.endpoints = None;
                self.shape.shape_type = shape_type;
                self.shape.is_filled = is_filled;
                self.shape.is_solid = is_solid;
                None
            },
            CaptureEvent::ChangeStroke(stroke_width) => {
                self.shape.stroke_width = stroke_width;
                None
            },
            CaptureEvent::ChangeColor(color) => {
                self.shape.color = color;
                None
            },
            CaptureEvent::SetInitialPoint => {
                let here = Endpoints { initial_pt: self.cursor_position, final_pt: self.cursor_position };
                match self.mode {
                    Mode::Draw => {
                        self.shape.endpoints = Some(here);
                    },
                    Mode::Crop => {
                        self.crop_mode = CropMode::SelectionInProgress;
                        self.endpoints = here;
                    },
                }
                None
            },
            CaptureEvent::UpdateCurrentPosition(p) => {
                self.cursor_position = p;
                if self.mode == Mode::Draw {
                    if let Some(d) = self.shape.endpoints {
                        self.shape.endpoints = Some(Endpoints { final_pt: p, ..d });
                    }
                } else {
                    self.crop_track(p);
                }
                None
            },
            CaptureEvent::SetFinalPoint => {
                match self.mode {
                    Mode::Draw => {
                        if self.shape.endpoints.is_some() {
                            self.shapes.push(self.shape);
                            self.cache_stale = true;
                        }
                        self.shape.endpoints = None;
                    },
                    Mode::Crop => {
                        self.release_selection();
                    },
                }
                None
            },
        }
    }
}

impl CaptureWindow {
    /// Whether the toolbar button for this shape style shows as selected: in
    /// Draw mode, when the template has that type, fill and stroke kind.
    pub fn is_tool_selected(&self, shape_type: ShapeType, is_filled: bool, is_solid: bool) -> (r: bool)
        ensures
            r == (self.mode == Mode::Draw && self.shape.shape_type == shape_type
                && self.shape.is_filled == is_filled && self.shape.is_solid == is_solid),
    {
        self.mode == Mode::Draw && self.shape.shape_type == shape_type
            && self.shape.is_filled == is_filled && self.shape.is_solid == is_solid
    }

    /// Whether the toolbar is shown: during a crop drag, or while no shape
    /// is being dragged.
    pub fn shows_toolbar(&self) -> (r: bool)
        ensures
            r == (self.crop_mode == CropMode::SelectionInProgress || self.shape.endpoints is None),
    {
        self.crop_mode == CropMode::SelectionInProgress || self.shape.endpoints.is_none()
    }

    /// Whether the stroke-width choices are shown: in Draw mode, for an
    /// outlined shape.
    pub fn shows_stroke_choice(&self) -> (r: bool)
        ensures
            r == (self.mode == Mode::Draw && !self.shape.is_filled),
    {
        self.mode == Mode::Draw && !self.shape.is_filled
    }

    /// Whether the color choices are shown: in Draw mode.
    pub fn shows_color_choice(&self) -> (r: bool)
        ensures
            r == (self.mode == Mode::Draw),
    {
        self.mode == Mode::Draw
    }

    /// Whether the status text is shown: in Crop mode.
    pub fn shows_mode_desc(&self) -> (r: bool)
        ensures
            r == (self.mode == Mode::Crop),
    {
        self.mode == Mode::Crop
    }

    /// Reports whether the committed shapes changed since the last call, and
    /// clears the flag; nothing else changes.
    pub fn take_cache_stale(&mut self) -> (r: bool)
        ensures
            r == old(self).cache_stale,
            final(self)@ == (SessionView { cache_stale: false, ..old(self)@ }),
            consistent(old(self)@) ==> consistent(final(self)@),
    {
        let r = self.cache_stale;
        self.cache_stale = false;
        proof {
            if old(self)@.crop_mode is SpecificWindow && consistent(old(self)@) {
                let s = old(self)@.windows;
                let j = choose|j: int| 0 <= j < s.len() && #[trigger] s[j].0 == old(self)@.crop_mode->0;
                assert(self@.windows[j].0 == self@.crop_mode->0);
            }
        }
        r
    }
}

} // verus!
