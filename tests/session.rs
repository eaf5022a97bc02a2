use capture_core::capture_window::CaptureWindow;
use capture_core::catalog::find_at;
use capture_core::geometry::{contains, Endpoints, Point};
use capture_core::models::{
    CaptureEvent, CapturedWindow, CropMode, Mode, SessionCommand, ShapeColor, ShapeStroke,
    ShapeType,
};
use indexmap::IndexMap;

fn pt(x: i64, y: i64) -> Point {
    Point { x, y }
}

fn win(name: &str, x: i32, y: i32, width: u32, height: u32) -> CapturedWindow {
    CapturedWindow { name: name.to_string(), x, y, width, height }
}

fn two_windows() -> IndexMap<u32, CapturedWindow> {
    let mut m = IndexMap::new();
    m.insert(7, win("A", 0, 0, 100, 100));
    m.insert(3, win("B", 50, 50, 100, 100));
    m
}

fn drag(s: &mut CaptureWindow, from: Point, to: Point) {
    s.update(CaptureEvent::UpdateCurrentPosition(from));
    s.update(CaptureEvent::SetInitialPoint);
    s.update(CaptureEvent::UpdateCurrentPosition(to));
    s.update(CaptureEvent::SetFinalPoint);
}

#[test]
fn normalize_orders_corners() {
    let e = Endpoints { initial_pt: pt(50, 10), final_pt: pt(10, 80) };
    let n = e.normalize();
    assert_eq!(n, Endpoints { initial_pt: pt(10, 10), final_pt: pt(50, 80) });
    assert_eq!(n.normalize(), n);
    assert_eq!(e.size(), (40, 70));
}

#[test]
fn size_of_extreme_drag() {
    let e = Endpoints { initial_pt: pt(i64::MAX, 0), final_pt: pt(i64::MIN, 0) };
    assert_eq!(e.size(), (u64::MAX, 0));
}

#[test]
fn containment_is_half_open() {
    assert!(contains(pt(0, 0), pt(100, 100), pt(0, 0)));
    assert!(contains(pt(0, 0), pt(100, 100), pt(99, 99)));
    assert!(!contains(pt(0, 0), pt(100, 100), pt(100, 50)));
    assert!(!contains(pt(0, 0), pt(100, 100), pt(50, 100)));
    assert!(!contains(pt(0, 0), pt(100, 100), pt(-1, 50)));
}

#[test]
fn find_at_takes_first_in_catalog_order() {
    let m = two_windows();
    assert_eq!(find_at(&m, pt(60, 60)), Some(0));
    assert_eq!(find_at(&m, pt(120, 120)), Some(1));
    assert_eq!(find_at(&m, pt(200, 10)), None);
    assert_eq!(find_at(&IndexMap::new(), pt(0, 0)), None);
}

#[test]
fn new_session_starts_in_crop_full_screen() {
    let s = CaptureWindow::new(two_windows());
    assert_eq!(s.mode, Mode::Crop);
    assert_eq!(s.crop_mode, CropMode::FullScreen);
    assert_eq!(s.mode_desc, "FullScreen");
    assert!(s.shapes.is_empty());
    assert!(s.shape.endpoints.is_none());
    assert!(!s.cache_stale);
}

#[test]
fn zero_drag_collapses_to_full_screen() {
    let mut s = CaptureWindow::new(IndexMap::new());
    drag(&mut s, pt(30, 40), pt(30, 40));
    assert_eq!(s.crop_mode, CropMode::FullScreen);
}

#[test]
fn manual_selection_commit() {
    let mut s = CaptureWindow::new(IndexMap::new());
    s.update(CaptureEvent::UpdateCurrentPosition(pt(10, 10)));
    s.update(CaptureEvent::SetInitialPoint);
    assert_eq!(s.crop_mode, CropMode::SelectionInProgress);
    s.update(CaptureEvent::UpdateCurrentPosition(pt(50, 80)));
    assert_eq!(s.mode_desc, "40 x 70");
    s.update(CaptureEvent::SetFinalPoint);
    assert_eq!(s.crop_mode, CropMode::ManualSelection);
    assert_eq!(
        s.endpoints.normalize(),
        Endpoints { initial_pt: pt(10, 10), final_pt: pt(50, 80) }
    );
    // A released selection ignores further cursor moves.
    s.update(CaptureEvent::UpdateCurrentPosition(pt(5, 5)));
    assert_eq!(s.crop_mode, CropMode::ManualSelection);
    assert_eq!(s.mode_desc, "40 x 70");
}

#[test]
fn backwards_drag_reports_positive_size() {
    let mut s = CaptureWindow::new(IndexMap::new());
    s.update(CaptureEvent::UpdateCurrentPosition(pt(300, 200)));
    s.update(CaptureEvent::SetInitialPoint);
    s.update(CaptureEvent::UpdateCurrentPosition(pt(100, 150)));
    assert_eq!(s.mode_desc, "200 x 50");
}

#[test]
fn window_snapping_precedence() {
    let mut s = CaptureWindow::new(two_windows());
    s.update(CaptureEvent::UpdateCurrentPosition(pt(60, 60)));
    assert_eq!(s.crop_mode, CropMode::SpecificWindow(7));
    assert_eq!(s.mode_desc, "A");
    assert_eq!(s.endpoints, Endpoints { initial_pt: pt(0, 0), final_pt: pt(100, 100) });
    s.update(CaptureEvent::UpdateCurrentPosition(pt(120, 130)));
    assert_eq!(s.crop_mode, CropMode::SpecificWindow(3));
    assert_eq!(s.mode_desc, "B");
    assert_eq!(s.endpoints, Endpoints { initial_pt: pt(50, 50), final_pt: pt(150, 150) });
    s.update(CaptureEvent::UpdateCurrentPosition(pt(150, 150)));
    assert_eq!(s.crop_mode, CropMode::FullScreen);
    assert_eq!(s.mode_desc, "FullScreen");
}

#[test]
fn crop_undo_resets_to_full_screen() {
    let mut s = CaptureWindow::new(IndexMap::new());
    drag(&mut s, pt(1, 2), pt(3, 4));
    assert_eq!(s.crop_mode, CropMode::ManualSelection);
    assert_eq!(s.update(CaptureEvent::Undo), None);
    assert_eq!(s.crop_mode, CropMode::FullScreen);
}

#[test]
fn crop_cancel_closes_and_crop_done_enters_draw() {
    let mut s = CaptureWindow::new(IndexMap::new());
    assert_eq!(s.update(CaptureEvent::Cancel), Some(SessionCommand::Close));
    assert_eq!(s.mode, Mode::Crop);
    assert_eq!(s.update(CaptureEvent::Done), None);
    assert_eq!(s.mode, Mode::Draw);
    assert_eq!(s.update(CaptureEvent::Done), Some(SessionCommand::Close));
}

#[test]
fn leaving_crop_mid_drag_releases_the_selection() {
    let mut s = CaptureWindow::new(IndexMap::new());
    s.update(CaptureEvent::UpdateCurrentPosition(pt(10, 10)));
    s.update(CaptureEvent::SetInitialPoint);
    s.update(CaptureEvent::UpdateCurrentPosition(pt(20, 30)));
    s.update(CaptureEvent::ChooseShapeType(ShapeType::Line, false, true));
    assert_eq!(s.mode, Mode::Draw);
    assert_eq!(s.crop_mode, CropMode::ManualSelection);
    assert_eq!(s.endpoints, Endpoints { initial_pt: pt(10, 10), final_pt: pt(20, 30) });
}

#[test]
fn draw_commit_undo_round_trip() {
    let mut s = CaptureWindow::new(IndexMap::new());
    s.update(CaptureEvent::ChooseShapeType(ShapeType::Rectangle, true, true));
    assert_eq!(s.mode, Mode::Draw);
    s.update(CaptureEvent::UpdateCurrentPosition(pt(0, 0)));
    s.update(CaptureEvent::SetInitialPoint);
    s.update(CaptureEvent::UpdateCurrentPosition(pt(20, 20)));
    assert_eq!(
        s.shape.endpoints,
        Some(Endpoints { initial_pt: pt(0, 0), final_pt: pt(20, 20) })
    );
    s.update(CaptureEvent::SetFinalPoint);
    assert_eq!(s.shapes.len(), 1);
    assert_eq!(s.shapes[0].shape_type, ShapeType::Rectangle);
    assert!(s.shapes[0].is_filled);
    assert_eq!(
        s.shapes[0].endpoints,
        Some(Endpoints { initial_pt: pt(0, 0), final_pt: pt(20, 20) })
    );
    assert!(s.shape.endpoints.is_none());
    assert!(s.take_cache_stale());
    assert!(!s.take_cache_stale());
    s.update(CaptureEvent::Undo);
    assert_eq!(s.shapes.len(), 0);
    assert!(s.take_cache_stale());
    assert_eq!(s.update(CaptureEvent::Undo), None);
    assert_eq!(s.shapes.len(), 0);
}

#[test]
fn release_without_press_commits_nothing() {
    let mut s = CaptureWindow::new(IndexMap::new());
    s.update(CaptureEvent::ChooseShapeType(ShapeType::Arrow, false, true));
    s.update(CaptureEvent::UpdateCurrentPosition(pt(5, 5)));
    s.update(CaptureEvent::SetFinalPoint);
    assert!(s.shapes.is_empty());
    assert!(!s.cache_stale);
}

#[test]
fn cancel_semantics_asymmetry() {
    let mut s = CaptureWindow::new(IndexMap::new());
    s.update(CaptureEvent::ChooseShapeType(ShapeType::Ellipse, false, true));
    for i in 0..3 {
        drag(&mut s, pt(i, i), pt(i + 10, i + 10));
    }
    assert_eq!(s.shapes.len(), 3);
    s.update(CaptureEvent::Undo);
    assert_eq!(s.shapes.len(), 2);
    s.update(CaptureEvent::Undo);
    assert_eq!(s.shapes.len(), 1);
    drag(&mut s, pt(0, 0), pt(5, 5));
    drag(&mut s, pt(0, 0), pt(6, 6));
    assert_eq!(s.shapes.len(), 3);
    assert_eq!(s.update(CaptureEvent::Cancel), None);
    assert_eq!(s.shapes.len(), 0);
    assert_eq!(s.mode, Mode::Crop);
}

#[test]
fn style_changes_leave_committed_shapes_alone() {
    let mut s = CaptureWindow::new(IndexMap::new());
    s.update(CaptureEvent::ChooseShapeType(ShapeType::Line, false, true));
    s.update(CaptureEvent::ChangeColor(ShapeColor::Blue));
    s.update(CaptureEvent::ChangeStroke(ShapeStroke::Thin));
    drag(&mut s, pt(0, 0), pt(9, 9));
    s.update(CaptureEvent::ChangeColor(ShapeColor::Yellow));
    s.update(CaptureEvent::ChangeStroke(ShapeStroke::Broad));
    assert_eq!(s.shapes[0].color, ShapeColor::Blue);
    assert_eq!(s.shapes[0].stroke_width, ShapeStroke::Thin);
    assert_eq!(s.shape.color, ShapeColor::Yellow);
    assert_eq!(s.shape.stroke_width, ShapeStroke::Broad);
}

#[test]
fn done_in_draw_drops_the_uncommitted_shape() {
    let mut s = CaptureWindow::new(IndexMap::new());
    s.update(CaptureEvent::ChooseShapeType(ShapeType::Rectangle, false, false));
    drag(&mut s, pt(0, 0), pt(4, 4));
    s.update(CaptureEvent::SetInitialPoint);
    s.update(CaptureEvent::UpdateCurrentPosition(pt(8, 8)));
    assert_eq!(s.update(CaptureEvent::Done), Some(SessionCommand::Close));
    assert_eq!(s.shapes.len(), 1);
    assert!(s.shape.endpoints.is_none());
}

#[test]
fn toolbar_visibility_follows_mode() {
    let mut s = CaptureWindow::new(IndexMap::new());
    assert!(s.shows_toolbar());
    assert!(s.shows_mode_desc());
    assert!(!s.shows_color_choice());
    assert!(!s.is_tool_selected(ShapeType::Rectangle, false, true));
    s.update(CaptureEvent::ChooseShapeType(ShapeType::Rectangle, false, true));
    assert!(s.is_tool_selected(ShapeType::Rectangle, false, true));
    assert!(!s.is_tool_selected(ShapeType::Rectangle, true, true));
    assert!(s.shows_stroke_choice());
    assert!(s.shows_color_choice());
    assert!(!s.shows_mode_desc());
    s.update(CaptureEvent::SetInitialPoint);
    assert!(!s.shows_toolbar());
    s.update(CaptureEvent::ChooseShapeType(ShapeType::Rectangle, true, true));
    assert!(!s.shows_stroke_choice());
}
