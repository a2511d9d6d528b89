//! Drivable regions and the track that unites them.
use vstd::prelude::*;
use crate::car::TerminationCondition;
use crate::coordinates::{Boundary, Vec2d};

verus! {

/// A drivable region of a track.
pub trait TrackSection {
    /// The point lies inside the region.
    spec fn contains(&self, pos: Vec2d) -> bool;

    /// The walls of the region, as segments, in drawing order.
    spec fn edge_list(&self) -> Seq<(Vec2d, Vec2d)>;

    fn is_within(&self, pos: &Vec2d) -> (r: bool)
        ensures
            r == self.contains(*pos),
    ;

    fn edges(&self) -> (r: Vec<(Vec2d, Vec2d)>)
        ensures
            r@ == self.edge_list(),
    ;
}

/// An axis-aligned rectangle, coordinates in micrometres.
#[derive(Copy, Clone, Debug, PartialEq, Eq, Structural)]
pub struct ParallelRectSection {
    pub left_x: i64,
    pub right_x: i64,
    pub top_y: i64,
    pub bottom_y: i64,
}

impl TrackSection for ParallelRectSection {
    /// Strictly inside: a point on an edge is out.
    open spec fn contains(&self, pos: Vec2d) -> bool {
        self.left_x < pos.x < self.right_x && self.bottom_y < pos.y < self.top_y
    }

    /// Bottom-left, top-left, top-right, bottom-right and back to the start.
    open spec fn edge_list(&self) -> Seq<(Vec2d, Vec2d)> {
        let bot_left = Vec2d { x: self.left_x, y: self.bottom_y };
        let top_left = Vec2d { x: self.left_x, y: self.top_y };
        let top_right = Vec2d { x: self.right_x, y: self.top_y };
        let bot_right = Vec2d { x: self.right_x, y: self.bottom_y };
        seq![
            (bot_left, top_left),
            (top_left, top_right),
            (top_right, bot_right),
            (bot_right, bot_left),
        ]
    }

    fn is_within(&self, pos: &Vec2d) -> (r: bool) {
        (pos.x > self.left_x) && (pos.x < self.right_x) && (pos.y > self.bottom_y) && (pos.y
            < self.top_y)
    }

    fn edges(&self) -> (r: Vec<(Vec2d, Vec2d)>) {
        let mut vec = Vec::with_capacity(4);
        let bot_left = Vec2d { x: self.left_x, y: self.bottom_y };
        let top_left = Vec2d { x: self.left_x, y: self.top_y };
        let top_right = Vec2d { x: self.right_x, y: self.top_y };
        let bot_right = Vec2d { x: self.right_x, y: self.bottom_y };
        vec.push((bot_left, top_left));
        vec.push((top_left, top_right));
        vec.push((top_right, bot_right));
        vec.push((bot_right, bot_left));
        assert(vec@ =~= self.edge_list());
        vec
    }
}

/// A race definition: where cars start, the regions they may drive in, the
/// line that finishes the race and the rule that ends it when too long.
pub struct Track {
    pub start: Vec2d,
    pub finish_line: Boundary,
    pub sections: Vec<ParallelRectSection>,
    pub termination_condition: TerminationCondition,
}

impl Track {
    /// The point lies in at least one section.
    pub open spec fn contains(&self, p: Vec2d) -> bool {
        exists|i: int| 0 <= i < self.sections@.len() && #[trigger] self.sections@[i].contains(p)
    }

    /// The point has left the inside of the finish boundary.
    pub open spec fn finished_at(&self, p: Vec2d) -> bool {
        !self.finish_line.contains(p)
    }

    pub fn is_within_track(&self, point: &Vec2d) -> (r: bool)
        ensures
            r == self.contains(*point),
    {
        let mut i: usize = 0;
        while i < self.sections.len()
            invariant
                i <= self.sections@.len(),
                forall|j: int| 0 <= j < i ==> !(#[trigger] self.sections@[j].contains(*point)),
            decreases self.sections@.len() - i,
        {
            if self.sections[i].is_within(point) {
                return true;
            }
            i += 1;
        }
        false
    }

    pub fn is_finished(&self, point: &Vec2d) -> (r: bool)
        ensures
            r == self.finished_at(*point),
    {
        !self.finish_line.point_within(point)
    }
}

} // verus!
