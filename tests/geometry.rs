use driving_game_core::coordinates::{Axis, Boundary, LineType, UnsupportedLine, Vec2d};
use driving_game_core::default_tracks::make_track;
use driving_game_core::fixed_point::{cos_micro, sin_micro, HALF_PI_MICRO, PI_MICRO, SCALE};
use driving_game_core::track::{ParallelRectSection, Track, TrackSection};
use driving_game_core::car::TerminationCondition;

const M: i64 = 1_000_000;

fn rect() -> ParallelRectSection {
    ParallelRectSection { left_x: -50 * M, right_x: 50 * M, top_y: 380 * M, bottom_y: -10 * M }
}

#[test]
fn rect_containment_is_strict() {
    let r = rect();
    assert!(r.is_within(&Vec2d::new(0, 0)));
    assert!(!r.is_within(&Vec2d::new(50 * M, 0)));
    assert!(!r.is_within(&Vec2d::new(51 * M, 0)));
    assert!(!r.is_within(&Vec2d::new(0, -10 * M)));
    assert!(r.is_within(&Vec2d::new(0, -10 * M + 1)));
    assert!(!r.is_within(&Vec2d::new(0, 380 * M)));
}

#[test]
fn rect_edges_wind_from_bottom_left() {
    let edges = rect().edges();
    let bl = Vec2d::new(-50 * M, -10 * M);
    let tl = Vec2d::new(-50 * M, 380 * M);
    let tr = Vec2d::new(50 * M, 380 * M);
    let br = Vec2d::new(50 * M, -10 * M);
    assert_eq!(edges, vec![(bl, tl), (tl, tr), (tr, br), (br, bl)]);
}

#[test]
fn horizontal_finish_line_crossing() {
    let finish = Boundary::horizontal(350 * M, true);
    assert!(finish.point_within(&Vec2d::new(0, 349_900_000)));
    assert!(!finish.point_within(&Vec2d::new(0, 350_100_000)));
    // on the line counts as below
    assert!(finish.point_within(&Vec2d::new(0, 350 * M)));
    let track = make_track();
    assert!(!track.is_finished(&Vec2d::new(0, 349_900_000)));
    assert!(track.is_finished(&Vec2d::new(0, 350_100_000)));
}

#[test]
fn vertical_boundary_sides() {
    let left = Boundary::vertical(10, true);
    assert_eq!(left.line_type, LineType::Vertical(10));
    assert!(!left.positive_inf_within);
    assert!(left.point_within(&Vec2d::new(9, 0)));
    assert!(left.point_within(&Vec2d::new(10, 0)));
    assert!(!left.point_within(&Vec2d::new(11, 0)));
    let right = Boundary::vertical(10, false);
    assert!(!right.point_within(&Vec2d::new(10, 0)));
    assert!(right.point_within(&Vec2d::new(11, 0)));
}

#[test]
fn diagonal_boundary_sides() {
    // y = 2x + 3 (metres), above is inside
    let b = Boundary { line_type: LineType::Diagonal(2 * M, 3 * M), positive_inf_within: true };
    assert!(b.point_within(&Vec2d::new(M, 5 * M + 1)));
    assert!(!b.point_within(&Vec2d::new(M, 5 * M)));
    assert!(!b.point_within(&Vec2d::new(-M, 0)));
    assert!(b.point_within(&Vec2d::new(-M, M + 1)));
}

#[test]
fn diagonal_boundary_below_zero_is_exact() {
    // y = 0.5 x, above is inside: at x = -11 the line is at -5.5
    let b = Boundary { line_type: LineType::Diagonal(500_000, 0), positive_inf_within: true };
    assert!(b.point_within(&Vec2d::new(-11, -5)));
    assert!(!b.point_within(&Vec2d::new(-11, -6)));
    // at x = 11 the line is at 5.5
    assert!(b.point_within(&Vec2d::new(11, 6)));
    assert!(!b.point_within(&Vec2d::new(11, 5)));
    // exactly on the line counts as not above
    assert!(!b.point_within(&Vec2d::new(-10, -5)));
    let below = Boundary { line_type: LineType::Diagonal(500_000, 0), positive_inf_within: false };
    assert!(!below.point_within(&Vec2d::new(-11, -5)));
    assert!(below.point_within(&Vec2d::new(-10, -5)));
}

#[test]
fn track_is_union_of_sections() {
    let track = Track {
        start: Vec2d::new(0, 0),
        finish_line: Boundary::horizontal(100 * M, true),
        sections: vec![
            ParallelRectSection { left_x: 0, right_x: 10 * M, top_y: 10 * M, bottom_y: 0 },
            ParallelRectSection { left_x: 5 * M, right_x: 20 * M, top_y: 5 * M, bottom_y: -5 * M },
        ],
        termination_condition: TerminationCondition::Ticks(10),
    };
    assert!(track.is_within_track(&Vec2d::new(M, M)));
    assert!(track.is_within_track(&Vec2d::new(15 * M, -M)));
    assert!(track.is_within_track(&Vec2d::new(7 * M, 2 * M)));
    assert!(!track.is_within_track(&Vec2d::new(15 * M, 8 * M)));
    assert!(!track.is_within_track(&Vec2d::new(0, M)));
}

#[test]
fn default_track_layout() {
    let track = make_track();
    assert_eq!(track.start, Vec2d::new(0, 0));
    assert_eq!(track.sections, vec![rect()]);
    assert_eq!(track.finish_line, Boundary::horizontal(350 * M, true));
    assert_eq!(track.termination_condition, TerminationCondition::Seconds(30));
    assert!(track.is_within_track(&track.start));
    assert!(!track.is_finished(&track.start));
}

#[test]
fn fixed_point_trig_values() {
    assert_eq!(sin_micro(0), 0);
    assert_eq!(cos_micro(0), SCALE);
    assert_eq!(sin_micro(HALF_PI_MICRO), SCALE);
    assert_eq!(cos_micro(PI_MICRO), -SCALE);
    assert_eq!(sin_micro(-HALF_PI_MICRO), -SCALE);
    assert_eq!(sin_micro(PI_MICRO / 6), 499_999);
    // close to the true values elsewhere
    for i in -40..40i64 {
        let h = i * 250_000;
        let s = (h as f64 / 1e6).sin() * 1e6;
        let c = (h as f64 / 1e6).cos() * 1e6;
        assert!((sin_micro(h) as f64 - s).abs() < 2_000.0);
        assert!((cos_micro(h) as f64 - c).abs() < 2_000.0);
    }
}

#[test]
fn termination_conditions() {
    let t = TerminationCondition::Ticks(5);
    assert!(!t.is_timed_out(5, 0));
    assert!(t.is_timed_out(6, 0));
    let s = TerminationCondition::Seconds(30);
    assert!(!s.is_timed_out(1_000_000, 30 * M));
    assert!(s.is_timed_out(0, 30 * M + 1));
    let us = TerminationCondition::Microseconds(2_500_000);
    assert!(!us.is_timed_out(0, 2_500_000));
    assert!(us.is_timed_out(0, 2_500_001));
    assert!(!us.is_timed_out(0, -1));
}

#[test]
fn finish_marker_placement() {
    let h = Boundary::horizontal(350 * M, true);
    assert_eq!(h.marker_placement(), Ok((Vec2d::new(0, 350 * M), Axis::X)));
    let v = Boundary::vertical(-7, false);
    assert_eq!(v.marker_placement(), Ok((Vec2d::new(-7, 0), Axis::Y)));
    let d = Boundary { line_type: LineType::Diagonal(3, 4), positive_inf_within: false };
    assert_eq!(d.marker_placement(), Err(UnsupportedLine { slope: 3, intercept: 4 }));
}
