//! Facts about whole event sequences, proved over `step`.

use vstd::prelude::*;
use crate::capture_window::{consistent, step, SessionView};
use crate::geometry::{normalized, Endpoints, Point};
use crate::models::{CaptureEvent, CropMode, Mode, ShapeType};

verus! {

/// Every event keeps the session consistent: exactly one mode and one crop
/// mode, a snapped window that is in the catalog, no shape being dragged in
/// Crop mode, no crop drag pending in Draw mode, and endpoints on every
/// committed shape.
pub proof fn lemma_step_keeps_consistent(m: SessionView, e: CaptureEvent)
    requires
        consistent(m),
    ensures
        consistent(step(m, e).0),
{
    let n = step(m, e).0;
    assert(n.windows == m.windows);
    if n.crop_mode == m.crop_mode && m.crop_mode is SpecificWindow {
        let j = choose|j: int| 0 <= j < m.windows.len() && #[trigger] m.windows[j].0 == m.crop_mode->0;
        assert(n.windows[j].0 == n.crop_mode->0);
    }
    match e {
        CaptureEvent::UpdateCurrentPosition(p) => {
            if m.mode == Mode::Crop {
                match crate::catalog::first_hit(m.windows, p) {
                    Some(j) => {
                        if m.crop_mode is FullScreen || m.crop_mode is SpecificWindow {
                            assert(crate::catalog::is_first_hit(m.windows, p, j));
                            assert(n.crop_mode == CropMode::SpecificWindow(n.windows[j].0));
                        }
                    },
                    None => {},
                }
            }
        },
        CaptureEvent::SetFinalPoint => {
            if m.mode == Mode::Draw && m.shape.endpoints is Some {
                assert forall|i: int| 0 <= i < n.shapes.len() implies (#[trigger] n.shapes[i]).endpoints is Some by {
                    if i < m.shapes.len() {
                        assert(n.shapes[i] == m.shapes[i]);
                    }
                }
            }
        },
        CaptureEvent::Undo => {
            if m.mode == Mode::Draw && m.shapes.len() > 0 {
                assert forall|i: int| 0 <= i < n.shapes.len() implies (#[trigger] n.shapes[i]).endpoints is Some by {
                    assert(n.shapes[i] == m.shapes[i]);
                }
            }
        },
        _ => {},
    }
}

/// The state after the events `es`, one after the other, from `m`.
pub open spec fn run(m: SessionView, es: Seq<CaptureEvent>) -> SessionView
    decreases es.len(),
{
    if es.len() == 0 {
        m
    } else {
        run(step(m, es[0]).0, es.drop_first())
    }
}

/// After any sequence of events a consistent session is still consistent;
/// since a new session is consistent, so is every session reached from one.
pub proof fn lemma_run_keeps_consistent(m: SessionView, es: Seq<CaptureEvent>)
    requires
        consistent(m),
    ensures
        consistent(run(m, es)),
    decreases es.len(),
{
    if es.len() > 0 {
        lemma_step_keeps_consistent(m, es[0]);
        lemma_run_keeps_consistent(step(m, es[0]).0, es.drop_first());
    }
}

/// In Crop mode with the whole screen selected, pressing and releasing at
/// the same spot leaves the whole screen selected.
pub proof fn lemma_zero_drag_collapses(m: SessionView)
    requires
        m.mode == Mode::Crop,
        m.crop_mode == CropMode::FullScreen,
    ensures
        step(step(m, CaptureEvent::SetInitialPoint).0, CaptureEvent::SetFinalPoint).0.crop_mode
            == CropMode::FullScreen,
{
}

/// In Crop mode, pressing at the cursor, moving to another point `b` and
/// releasing there selects exactly the rectangle between the two points.
pub proof fn lemma_manual_selection(m: SessionView, b: Point)
    requires
        m.mode == Mode::Crop,
        m.cursor_position != b,
    ensures
        ({
            let a = m.cursor_position;
            let m1 = step(m, CaptureEvent::SetInitialPoint).0;
            let m2 = step(m1, CaptureEvent::UpdateCurrentPosition(b)).0;
            let m3 = step(m2, CaptureEvent::SetFinalPoint).0;
            &&& m3.crop_mode == CropMode::ManualSelection
            &&& m3.endpoints == (Endpoints { initial_pt: a, final_pt: b })
            &&& normalized(m3.endpoints) == normalized(Endpoints { initial_pt: a, final_pt: b })
        }),
{
}

/// Choosing a shape type, dragging from the cursor to `p` and releasing
/// commits exactly one shape, from the cursor to `p`; a following Undo
/// restores the committed shapes as they were.
pub proof fn lemma_draw_then_undo(m: SessionView, t: ShapeType, filled: bool, solid: bool, p: Point)
    ensures
        ({
            let m1 = step(m, CaptureEvent::ChooseShapeType(t, filled, solid)).0;
            let m2 = step(m1, CaptureEvent::SetInitialPoint).0;
            let m3 = step(m2, CaptureEvent::UpdateCurrentPosition(p)).0;
            let m4 = step(m3, CaptureEvent::SetFinalPoint).0;
            let m5 = step(m4, CaptureEvent::Undo).0;
            &&& m4.mode == Mode::Draw
            &&& m4.shapes.len() == m.shapes.len() + 1
            &&& m4.shapes.last().shape_type == t
            &&& m4.shapes.last().endpoints
                == Some(Endpoints { initial_pt: m1.cursor_position, final_pt: p })
            &&& m5.shapes == m.shapes
        }),
{
    let m1 = step(m, CaptureEvent::ChooseShapeType(t, filled, solid)).0;
    let m2 = step(m1, CaptureEvent::SetInitialPoint).0;
    let m3 = step(m2, CaptureEvent::UpdateCurrentPosition(p)).0;
    let m4 = step(m3, CaptureEvent::SetFinalPoint).0;
    assert(m4.shapes.drop_last() =~= m.shapes);
}

/// In Draw mode Undo removes exactly the last committed shape, and does
/// nothing to an empty list.
pub proof fn lemma_undo_removes_one(m: SessionView)
    requires
        m.mode == Mode::Draw,
    ensures
        m.shapes.len() > 0 ==> step(m, CaptureEvent::Undo).0.shapes == m.shapes.drop_last(),
        m.shapes.len() == 0 ==> step(m, CaptureEvent::Undo).0.shapes.len() == 0,
        step(m, CaptureEvent::Undo).0.mode == Mode::Draw,
        step(m, CaptureEvent::Undo).1 is None,
{
}

/// In Draw mode Cancel discards every committed shape at once and returns to
/// Crop mode.
pub proof fn lemma_cancel_discards_all(m: SessionView)
    requires
        m.mode == Mode::Draw,
    ensures
        step(m, CaptureEvent::Cancel).0.shapes.len() == 0,
        step(m, CaptureEvent::Cancel).0.mode == Mode::Crop,
        step(m, CaptureEvent::Cancel).1 is None,
{
}

} // verus!
