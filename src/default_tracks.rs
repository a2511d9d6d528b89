//! The track that races use unless told otherwise.
use vstd::prelude::*;
use crate::car::TerminationCondition;
use crate::coordinates::{Boundary, LineType, Vec2d};
use crate::track::{ParallelRectSection, Track};

verus! {

/// A straight 100 m wide, from 10 m below the start to 380 m above it; the
/// finish is crossed 350 m above the start, and the race times out after 30 s.
pub fn make_track() -> (r: Track)
    ensures
        r.start == (Vec2d { x: 0, y: 0 }),
        r.finish_line == (Boundary {
            line_type: LineType::Horizontal(350_000_000),
            positive_inf_within: false,
        }),
        r.sections@ == seq![
            ParallelRectSection {
                left_x: -50_000_000i64,
                right_x: 50_000_000,
                top_y: 380_000_000,
                bottom_y: -10_000_000i64,
            },
        ],
        r.termination_condition == TerminationCondition::Seconds(30),
{
    let track_sect = ParallelRectSection {
        left_x: -50_000_000,
        right_x: 50_000_000,
        top_y: 380_000_000,
        bottom_y: -10_000_000,
    };
    let mut sections = Vec::new();
    sections.push(track_sect);
    assert(sections@ =~= seq![track_sect]);
    Track {
        start: Vec2d::new(0, 0),
        finish_line: Boundary::horizontal(350_000_000, true),
        sections,
        termination_condition: TerminationCondition::Seconds(30),
    }
}

} // verus!
