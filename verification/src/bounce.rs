//! The idle-screen bouncing ball.
//!
//! Geometry is held as plain signed coordinates; rendering stays with the
//! caller.  The ball walks by its velocity vector each frame and rebounds
//! off the walls of its box, picking its next speed from a small table of
//! pseudo-random values.

use vstd::prelude::*;

verus! {

/// A display coordinate.
#[derive(Clone, Copy, Debug, PartialEq, Eq, Structural)]
pub struct Point {
    pub x: i32,
    pub y: i32,
}

/// An axis-aligned box: top-left and bottom-right corners.
#[derive(Clone, Copy, Debug, PartialEq, Eq, Structural)]
pub struct Rect {
    pub top_left: Point,
    pub bottom_right: Point,
}

/// The bouncing ball: its box, velocity, speed table and position.
pub struct Bounce {
    /// Current velocity.
    pub vector: Point,
    /// Ball radius, in pixels.
    pub radius: u32,
    /// The box the ball stays inside.
    pub bounds: Rect,
    /// Speed table the rebounds draw from.
    pub rand: Vec<i32>,
    /// Next entry of the speed table to use.
    pub rand_index: usize,
    /// Current position of the ball's centre.
    pub loc: Point,
}

impl Bounce {
    /// The geometry stays sane: a modest box, a ball that fits in it with
    /// room to move, speeds from the table, and a position near the box.
    pub open spec fn wf(&self) -> bool {
        &&& 1 <= self.radius <= 100
        &&& -10000 <= self.bounds.top_left.x <= 10000
        &&& -10000 <= self.bounds.top_left.y <= 10000
        &&& -10000 <= self.bounds.bottom_right.x <= 10000
        &&& -10000 <= self.bounds.bottom_right.y <= 10000
        &&& self.bounds.bottom_right.x - self.bounds.top_left.x > 2 * self.radius + 20
        &&& self.bounds.bottom_right.y - self.bounds.top_left.y > 2 * self.radius + 20
        &&& self.rand@.len() > 0
        &&& self.rand_index < self.rand@.len()
        &&& forall|i: int| 0 <= i < self.rand@.len() ==> 2 <= #[trigger] self.rand@[i] <= 8
        &&& -8 <= self.vector.x <= 8
        &&& -8 <= self.vector.y <= 8
        &&& -20000 <= self.loc.x <= 20000
        &&& -20000 <= self.loc.y <= 20000
    }

    /// A ball of the given radius in the given box, starting at a fixed
    /// velocity with a fixed speed table, positioned by the box's size.
    pub fn new(radius: u32, bounds: Rect) -> (b: Bounce)
        requires
            1 <= radius <= 100,
            -10000 <= bounds.top_left.x <= 10000,
            -10000 <= bounds.top_left.y <= 10000,
            -10000 <= bounds.bottom_right.x <= 10000,
            -10000 <= bounds.bottom_right.y <= 10000,
            bounds.bottom_right.x - bounds.top_left.x > 2 * radius + 20,
            bounds.bottom_right.y - bounds.top_left.y > 2 * radius + 20,
        ensures
            b.wf(),
            b.radius == radius,
            b.bounds == bounds,
    {
        let mut rand: Vec<i32> = Vec::new();
        rand.push(6);
        rand.push(2);
        rand.push(3);
        rand.push(5);
        rand.push(8);
        rand.push(3);
        rand.push(2);
        rand.push(4);
        rand.push(3);
        rand.push(8);
        rand.push(2);
        Bounce {
            vector: Point { x: 2, y: 3 },
            radius,
            bounds,
            rand,
            rand_index: 0,
            loc: Point {
                x: (bounds.bottom_right.x - bounds.top_left.x) / 2,
                y: (bounds.bottom_right.y - bounds.top_left.y) / 2,
            },
        }
    }

    /// One animation frame: the ball walks by its velocity; a wall within
    /// reach rebounds it with a fresh speed from the table and pins it to
    /// the wall.  Afterwards the ball sits inside its box, at least a
    /// radius away from every wall.
    pub fn update(&mut self)
        requires
            old(self).wf(),
        ensures
            final(self).wf(),
            final(self).radius == old(self).radius,
            final(self).bounds == old(self).bounds,
            ({
                let b = final(self).bounds;
                let r = final(self).radius;
                let l = final(self).loc;
                &&& b.top_left.x + r <= l.x <= b.bottom_right.x - r
                &&& b.top_left.y + r <= l.y <= b.bottom_right.y - r
            }),
    {
        let mut x: i32 = self.loc.x + self.vector.x;
        let mut y: i32 = self.loc.y + self.vector.y;
        let r: i32 = self.radius as i32;
        let tl = self.bounds.top_left;
        let br = self.bounds.bottom_right;

        if x >= br.x - r || x <= tl.x + r || y >= br.y - r || y <= tl.y + r {
            let speed = self.rand[self.rand_index];
            if x >= br.x - r - 1 {
                self.vector.x = -speed;
                x = br.x - r;
            }
            if x <= tl.x + r + 1 {
                self.vector.x = speed;
                x = tl.x + r;
            }
            if y >= br.y - r - 1 {
                self.vector.y = -speed;
                y = br.y - r;
            }
            if y <= tl.y + r + 1 {
                self.vector.y = speed;
                y = tl.y + r;
            }
            let rlen = self.rand.len();
            self.rand_index = (self.rand_index + 1) % rlen;
        }

        self.loc.x = x;
        self.loc.y = y;
    }
}

} // verus!
