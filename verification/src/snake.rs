//! The snake simulation: the body sequence and the per-tick step rule.
//!
//! The body is an ordered sequence of grid points, head first, tail last,
//! and is never empty. Each tick the caller picks a direction and says
//! whether the snake grows (it decides that by comparing the current head
//! with the food — the simulation stays decoupled from the food itself);
//! [`Snake::walk`] then computes the candidate head, tests it against the
//! body, and either refuses the move or makes the candidate the new head.

use vstd::prelude::*;

use crate::grid::{Point, WalkDirection, interior, lemma_interior_unit_step, next_head};

verus! {

/// Whether a head stepping onto `p` collides with the body: `p` matches
/// some segment other than the first two. The head and the neck are
/// exempt, because on an accepted move they become the new neck and the
/// segment behind it, so re-entering either cell is safe. The exemption
/// applies on every move, reversal or not — a quirk kept from the game's
/// rules.
pub open spec fn collides(body: Seq<Point>, p: Point) -> bool {
    exists|i: int| 2 <= i < body.len() && body[i] == p
}

/// The body after an accepted step whose candidate head is `next`: the
/// candidate is pushed in front, and unless the snake grows the tail
/// segment is dropped.
pub open spec fn stepped_body(body: Seq<Point>, next: Point, grow: bool) -> Seq<Point> {
    if grow {
        seq![next] + body
    } else {
        seq![next] + body.drop_last()
    }
}

/// The body after one whole step in direction `d`: unchanged when the
/// candidate head collides, otherwise stepped.
pub open spec fn walk_once(
    body: Seq<Point>,
    d: WalkDirection,
    grow: bool,
    max_w: u16,
    max_h: u16,
) -> Seq<Point> {
    let next = next_head(body[0], d, max_w, max_h);
    if collides(body, next) {
        body
    } else {
        stepped_body(body, next, grow)
    }
}

/// The body after a run of non-growing steps, one per direction in
/// `dirs`, refused steps included.
pub open spec fn walk_run(
    body: Seq<Point>,
    dirs: Seq<WalkDirection>,
    max_w: u16,
    max_h: u16,
) -> Seq<Point>
    decreases dirs.len(),
{
    if dirs.len() == 0 {
        body
    } else {
        walk_run(walk_once(body, dirs[0], false, max_w, max_h), dirs.drop_first(), max_w, max_h)
    }
}

/// On an accepted step the candidate becomes the head and the previous
/// head becomes the neck. This is what makes the collision exemption of
/// the first two segments sound: the cells the head may re-enter are
/// exactly the ones those segments are about to occupy.
pub proof fn lemma_stepped_head_and_neck(body: Seq<Point>, next: Point, grow: bool)
    requires
        body.len() >= 2 || grow,
        body.len() >= 1,
    ensures
        stepped_body(body, next, grow)[0] == next,
        stepped_body(body, next, grow)[1] == body[0],
{
}

/// One step, accepted or refused, keeps the body non-empty; a non-growing
/// step keeps its length exactly, and an accepted growing step lengthens
/// it by one.
pub proof fn lemma_walk_once_len(
    body: Seq<Point>,
    d: WalkDirection,
    grow: bool,
    max_w: u16,
    max_h: u16,
)
    requires
        body.len() >= 1,
    ensures
        walk_once(body, d, grow, max_w, max_h).len() >= 1,
        !grow ==> walk_once(body, d, grow, max_w, max_h).len() == body.len(),
        grow && !collides(body, next_head(body[0], d, max_w, max_h)) ==> walk_once(
            body,
            d,
            grow,
            max_w,
            max_h,
        ).len() == body.len() + 1,
{
}

/// However long the run: non-growing steps keep the body length constant.
/// Each accepted step pushes a new head and drops the tail, and each
/// refused step changes nothing.
pub proof fn lemma_no_growth_run_keeps_length(
    body: Seq<Point>,
    dirs: Seq<WalkDirection>,
    max_w: u16,
    max_h: u16,
)
    requires
        body.len() >= 1,
    ensures
        walk_run(body, dirs, max_w, max_h).len() == body.len(),
    decreases dirs.len(),
{
    if dirs.len() > 0 {
        lemma_walk_once_len(body, dirs[0], false, max_w, max_h);
        lemma_no_growth_run_keeps_length(
            walk_once(body, dirs[0], false, max_w, max_h),
            dirs.drop_first(),
            max_w,
            max_h,
        );
    }
}

/// From an interior head, an accepted growth step lengthens the body by
/// exactly one and moves the new head one cell in the chosen direction.
pub proof fn lemma_interior_growth_step(body: Seq<Point>, d: WalkDirection, max_w: u16, max_h: u16)
    requires
        body.len() >= 1,
        interior(body[0], max_w, max_h),
        !collides(body, next_head(body[0], d, max_w, max_h)),
    ensures
        walk_once(body, d, true, max_w, max_h).len() == body.len() + 1,
        walk_once(body, d, true, max_w, max_h)[0] == next_head(body[0], d, max_w, max_h),
        d is Up ==> next_head(body[0], d, max_w, max_h) == (Point {
            x: body[0].x,
            y: (body[0].y - 1) as u16,
        }),
        d is Down ==> next_head(body[0], d, max_w, max_h) == (Point {
            x: body[0].x,
            y: (body[0].y + 1) as u16,
        }),
        d is Left ==> next_head(body[0], d, max_w, max_h) == (Point {
            x: (body[0].x - 1) as u16,
            y: body[0].y,
        }),
        d is Right ==> next_head(body[0], d, max_w, max_h) == (Point {
            x: (body[0].x + 1) as u16,
            y: body[0].y,
        }),
{
    lemma_interior_unit_step(body[0], d, max_w, max_h);
}

/// After one growth step from a single segment, the step that follows —
/// in particular the reversal back into the cell the head just vacated —
/// is always accepted: the collision test exempts the head and the neck,
/// and a two-segment body has nothing else to collide with.
pub proof fn lemma_reversal_accepted(
    body: Seq<Point>,
    d1: WalkDirection,
    d2: WalkDirection,
    max_w: u16,
    max_h: u16,
)
    requires
        body.len() == 1,
    ensures
        !collides(body, next_head(body[0], d1, max_w, max_h)),
        !collides(
            walk_once(body, d1, true, max_w, max_h),
            next_head(walk_once(body, d1, true, max_w, max_h)[0], d2, max_w, max_h),
        ),
{
    assert(walk_once(body, d1, true, max_w, max_h).len() == 2);
}

/// The player-controlled organism on a bounded wrap-around grid.
#[derive(Debug)]
pub struct Snake {
    /// Axis maximum for `y`, fixed at construction.
    pub max_height: u16,
    /// Axis maximum for `x`, fixed at construction.
    pub max_width: u16,
    /// The body, head first, tail last. Never empty.
    pub body: Vec<Point>,
}

impl Snake {
    /// Well-formed: the body is non-empty and every segment lies on the
    /// grid, within `[0, max]` on each axis.
    pub open spec fn wf(&self) -> bool {
        &&& self.body@.len() >= 1
        &&& forall|i: int|
            0 <= i < self.body@.len() ==> (#[trigger] self.body@[i]).x <= self.max_width
                && self.body@[i].y <= self.max_height
    }

    /// Builds a single-segment snake at `(x, y)` on a grid with the given
    /// axis maxima.
    pub fn new(x: u16, y: u16, max_width: u16, max_height: u16) -> (r: Snake)
        requires
            x <= max_width,
            y <= max_height,
        ensures
            r.wf(),
            r.body@ == seq![Point { x, y }],
            r.max_width == max_width,
            r.max_height == max_height,
    {
        let mut body: Vec<Point> = Vec::new();
        body.push(Point::new(x, y));
        proof {
            assert(body@ =~= seq![Point { x, y }]);
        }
        Snake { body, max_height, max_width }
    }

    /// Reports whether a head arriving at `(x, y)` loses the game: the
    /// cell matches a body segment beyond the first two (head and neck
    /// are exempt — see [`collides`]).
    pub fn lose_game(&self, x: u16, y: u16) -> (r: bool)
        ensures
            r == collides(self.body@, Point { x, y }),
    {
        let compare = Point::new(x, y);
        let n = self.body.len();
        let mut i: usize = 2;
        while i < n
            invariant
                2 <= i,
                n == self.body@.len(),
                compare == (Point { x, y }),
                forall|j: int| 2 <= j < i && j < n ==> self.body@[j] != compare,
            decreases n - i,
        {
            let seg = self.body[i];
            if seg.x == compare.x && seg.y == compare.y {
                proof {
                    assert(self.body@[i as int] == (Point { x, y }));
                }
                return true;
            }
            i = i + 1;
        }
        false
    }

    /// One tick of the simulation. Computes the candidate head one step
    /// in `direction` from the current head, with toroidal wrap on both
    /// axes, and tests it against the body. On a collision the move is
    /// refused and nothing changes; otherwise the candidate becomes the
    /// new head, and the tail segment is dropped unless `can_grow` holds.
    /// Returns whether the move was accepted — `false` means the game is
    /// lost.
    pub fn walk(&mut self, direction: WalkDirection, can_grow: bool) -> (r: bool)
        requires
            old(self).wf(),
        ensures
            final(self).wf(),
            final(self).max_width == old(self).max_width,
            final(self).max_height == old(self).max_height,
            r == !collides(
                old(self).body@,
                next_head(old(self).body@[0], direction, old(self).max_width, old(self).max_height),
            ),
            final(self).body@ == walk_once(
                old(self).body@,
                direction,
                can_grow,
                old(self).max_width,
                old(self).max_height,
            ),
            r && can_grow ==> final(self).body@.len() == old(self).body@.len() + 1,
            !can_grow ==> final(self).body@.len() == old(self).body@.len(),
            !r ==> final(self).body@ == old(self).body@,
    {
        let head = self.body[0];

        let raw: (u32, u32) = match direction {
            WalkDirection::Up => (
                head.x as u32,
                if head.y == 0 { 0u32 } else { head.y as u32 - 1 },
            ),
            WalkDirection::Down => (head.x as u32, head.y as u32 + 1),
            WalkDirection::Left => (
                if head.x == 0 { 0u32 } else { head.x as u32 - 1 },
                head.y as u32,
            ),
            WalkDirection::Right => (head.x as u32 + 1, head.y as u32),
        };

        let nx: u16 = if raw.0 == 0 {
            self.max_width
        } else if raw.0 > self.max_width as u32 {
            0
        } else {
            raw.0 as u16
        };
        let ny: u16 = if raw.1 == 0 {
            self.max_height
        } else if raw.1 > self.max_height as u32 {
            0
        } else {
            raw.1 as u16
        };

        let next = Point::new(nx, ny);
        proof {
            assert(next == next_head(head, direction, self.max_width, self.max_height));
        }

        if self.lose_game(next.x, next.y) {
            false
        } else {
            let ghost before = self.body@;
            self.body.insert(0, next);
            if !can_grow {
                let _tail = self.body.pop();
            }
            proof {
                assert(self.body@ =~= stepped_body(before, next, can_grow));
            }
            true
        }
    }
}

} // verus!
