//! The field, its bounds, and the overlap test for hit boxes.

use crate::bullet::HitBox;
use crate::math::{clamp_i32, div_toward_zero, quotient, saturate, Vec2, UNIT};
use vstd::prelude::*;

verus! {

/// An axis-aligned rectangle given by its four edges.
#[derive(Debug, Clone, Copy, PartialEq, Eq, Structural)]
pub struct Bounds {
    pub left: i32,
    pub right: i32,
    pub bottom: i32,
    pub top: i32,
}

impl Bounds {
    /// Whether `p` lies in the rectangle, edges included.
    pub open spec fn contains(self, p: Vec2) -> bool {
        self.left <= p.x <= self.right && self.bottom <= p.y <= self.top
    }

    /// Whether the rectangle has room for at least one point.
    pub open spec fn well_formed(self) -> bool {
        self.left <= self.right && self.bottom <= self.top
    }

    /// Whether `p` lies in the rectangle, edges included.
    pub fn holds(&self, p: Vec2) -> (r: bool)
        ensures
            r == self.contains(p),
    {
        self.left <= p.x && p.x <= self.right && self.bottom <= p.y && p.y <= self.top
    }
}

/// Half of a length, rounded towards zero.
pub open spec fn half(v: int) -> int {
    quotient(v, 2)
}

/// The width of a field that is one `UNIT` high and shows `width` by `height`
/// pixels.
pub open spec fn field_width(width: nat, height: nat) -> int {
    clamp_i32((width * UNIT) / (height as int))
}

/// Where the centre of something of the given size may be while all of it is
/// on a field of the given width.
pub open spec fn inside_bounds(field_width: int, size: Vec2) -> Bounds {
    Bounds {
        left: half(size.x as int) as i32,
        right: clamp_i32(field_width - half(size.x as int)) as i32,
        bottom: half(size.y as int) as i32,
        top: clamp_i32(UNIT - half(size.y as int)) as i32,
    }
}

/// Where the centre of something of the given size may be while any of it is
/// on a field of the given width.
pub open spec fn outside_bounds(field_width: int, size: Vec2) -> Bounds {
    Bounds {
        left: (-half(size.x as int)) as i32,
        right: clamp_i32(field_width + half(size.x as int)) as i32,
        bottom: (-half(size.y as int)) as i32,
        top: clamp_i32(UNIT + half(size.y as int)) as i32,
    }
}

/// Whether two boxes overlap. Each is given by its centre and its half
/// extents; on each axis the two intervals must share more than an end point.
pub open spec fn overlaps(a_pos: Vec2, a_half: Vec2, b_pos: Vec2, b_half: Vec2) -> bool {
    &&& a_pos.x - a_half.x < b_pos.x + b_half.x
    &&& a_pos.x + a_half.x > b_pos.x - b_half.x
    &&& a_pos.y - a_half.y < b_pos.y + b_half.y
    &&& a_pos.y + a_half.y > b_pos.y - b_half.y
}

/// Whether two boxes overlap, each given by its centre and its half extents.
pub fn collide(a_pos: Vec2, a_half: Vec2, b_pos: Vec2, b_half: Vec2) -> (hit: bool)
    ensures
        hit == overlaps(a_pos, a_half, b_pos, b_half),
{
    let a_min_x: i64 = a_pos.x as i64 - a_half.x as i64;
    let a_max_x: i64 = a_pos.x as i64 + a_half.x as i64;
    let a_min_y: i64 = a_pos.y as i64 - a_half.y as i64;
    let a_max_y: i64 = a_pos.y as i64 + a_half.y as i64;
    let b_min_x: i64 = b_pos.x as i64 - b_half.x as i64;
    let b_max_x: i64 = b_pos.x as i64 + b_half.x as i64;
    let b_min_y: i64 = b_pos.y as i64 - b_half.y as i64;
    let b_max_y: i64 = b_pos.y as i64 + b_half.y as i64;
    a_min_x < b_max_x && a_max_x > b_min_x && a_min_y < b_max_y && a_max_y > b_min_y
}

/// The overlap test does not care which box is named first.
pub proof fn lemma_collide_symmetric(a_pos: Vec2, a_half: Vec2, b_pos: Vec2, b_half: Vec2)
    ensures
        overlaps(a_pos, a_half, b_pos, b_half) == overlaps(b_pos, b_half, a_pos, a_half),
{
}

/// Two boxes overlap exactly when their centres are closer, on both axes,
/// than the sum of the half extents.
pub proof fn lemma_collide_by_distance(a_pos: Vec2, a_half: Vec2, b_pos: Vec2, b_half: Vec2)
    ensures
        overlaps(a_pos, a_half, b_pos, b_half) <==> {
            &&& -(a_half.x + b_half.x) < a_pos.x - b_pos.x < a_half.x + b_half.x
            &&& -(a_half.y + b_half.y) < a_pos.y - b_pos.y < a_half.y + b_half.y
        },
{
}

/// Whether `found` is the first of `others` that the box at `pos` overlaps:
/// the smallest index of an overlapping box, or nothing where none overlaps.
pub open spec fn is_first_overlap(
    pos: Vec2,
    hit_box: HitBox,
    others: Seq<(Vec2, HitBox)>,
    found: Option<usize>,
) -> bool {
    match found {
        Some(i) => {
            &&& i < others.len()
            &&& overlaps(pos, hit_box.0, others[i as int].0, others[i as int].1.0)
            &&& forall|k: int|
                0 <= k < i ==> !overlaps(pos, hit_box.0, #[trigger] others[k].0, others[k].1.0)
        },
        None => forall|k: int|
            0 <= k < others.len() ==> !overlaps(pos, hit_box.0, #[trigger] others[k].0, others[k].1.0),
    }
}

/// Finds the first of `others` that the box at `pos` overlaps.
pub fn first_overlap(pos: Vec2, hit_box: HitBox, others: &Vec<(Vec2, HitBox)>) -> (found: Option<
    usize,
>)
    ensures
        is_first_overlap(pos, hit_box, others@, found),
{
    let mut i: usize = 0;
    while i < others.len()
        invariant
            i <= others.len(),
            forall|k: int|
                0 <= k < i ==> !overlaps(pos, hit_box.0, #[trigger] others[k].0, others[k].1.0),
        decreases others.len() - i,
    {
        if collide(pos, hit_box.0, others[i].0, others[i].1.0) {
            return Some(i);
        }
        i += 1;
    }
    None
}

/// The measures of the field.
pub trait Screen {
    /// The width of the field; its height is `UNIT`.
    spec fn width(&self) -> int;

    /// The right edge of the field.
    fn max_x(&self) -> (r: i32)
        ensures
            r == self.width(),
    ;

    /// The top edge of the field.
    fn max_y(&self) -> (r: i32)
        ensures
            r == UNIT,
    ;

    fn middle_x(&self) -> (r: i32)
        ensures
            r == half(self.width()),
    ;

    fn middle_y(&self) -> (r: i32)
        ensures
            r == half(UNIT as int),
    ;

    /// The centre of the field.
    fn middle(&self) -> (r: Vec2)
        ensures
            r.x == half(self.width()),
            r.y == half(UNIT as int),
    ;

    /// Where the centre of something of size `size` may be while all of it is
    /// on the field.
    fn bounds_box_inside(&self, size: Vec2) -> (r: Bounds)
        ensures
            r == inside_bounds(self.width(), size),
    ;

    /// Where the centre of something of size `size` may be while any of it is
    /// on the field.
    fn bounds_box_outside(&self, size: Vec2) -> (r: Bounds)
        ensures
            r == outside_bounds(self.width(), size),
    ;
}

/// The window the field is shown in, measured in pixels.
#[derive(Debug, Clone, Copy)]
pub struct Window {
    width: u32,
    height: u32,
}

impl Window {
    #[verifier::type_invariant]
    spec fn has_height(self) -> bool {
        self.height > 0
    }

    /// The width and the height of the window in pixels.
    pub closed spec fn pixels(self) -> (nat, nat) {
        (self.width as nat, self.height as nat)
    }

    /// A window of `width` by `height` pixels; none where the height is zero.
    pub fn new(width: u32, height: u32) -> (r: Option<Window>)
        ensures
            r.is_some() == (height > 0),
            r.is_some() ==> r.unwrap().pixels() == (width as nat, height as nat),
    {
        if height > 0 {
            Some(Window { width, height })
        } else {
            None
        }
    }
}

/// Half of a length, rounded towards zero.
fn halved(v: i32) -> (r: i32)
    ensures
        r == half(v as int),
{
    div_toward_zero(v as i128, 2) as i32
}

impl Screen for Window {
    open spec fn width(&self) -> int {
        field_width(self.pixels().0, self.pixels().1)
    }

    fn max_x(&self) -> (r: i32) {
        proof {
            use_type_invariant(self);
        }
        let product: u64 = self.width as u64 * UNIT as u64;
        saturate((product / self.height as u64) as i128)
    }

    fn max_y(&self) -> (r: i32) {
        UNIT
    }

    fn middle_x(&self) -> (r: i32) {
        halved(self.max_x())
    }

    fn middle_y(&self) -> (r: i32) {
        halved(self.max_y())
    }

    fn middle(&self) -> (r: Vec2) {
        Vec2 { x: self.middle_x(), y: self.middle_y() }
    }

    fn bounds_box_inside(&self, size: Vec2) -> (r: Bounds) {
        let half_x = halved(size.x);
        let half_y = halved(size.y);
        Bounds {
            left: half_x,
            right: saturate(self.max_x() as i128 - half_x as i128),
            bottom: half_y,
            top: saturate(self.max_y() as i128 - half_y as i128),
        }
    }

    fn bounds_box_outside(&self, size: Vec2) -> (r: Bounds) {
        let half_x = halved(size.x);
        let half_y = halved(size.y);
        Bounds {
            left: -half_x,
            right: saturate(self.max_x() as i128 + half_x as i128),
            bottom: -half_y,
            top: saturate(self.max_y() as i128 + half_y as i128),
        }
    }
}

/// Marks something that is removed once it has left the field entirely.
#[derive(Debug, Clone, Copy, PartialEq, Eq, Structural)]
pub struct DestroyOutsideScreen {
    /// The size of what is drawn, which may be larger than the hit box.
    pub size: Vec2,
}

/// Whether something of size `size` at `pos` has left a field of the given
/// width entirely.
pub open spec fn has_left(field_width: int, size: Vec2, pos: Vec2) -> bool {
    !outside_bounds(field_width, size).contains(pos)
}

/// Tells for each item, given by its position and size, whether it has left
/// the field and is to be removed.
pub fn destroy_outside_screen(items: &Vec<(Vec2, DestroyOutsideScreen)>, win: &Window) -> (gone:
    Vec<bool>)
    ensures
        gone.len() == items.len(),
        forall|i: int|
            0 <= i < items.len() ==> gone[i] == has_left(win.width(), items[i].1.size, items[i].0),
{
    let mut gone: Vec<bool> = Vec::new();
    let mut i: usize = 0;
    while i < items.len()
        invariant
            i <= items.len(),
            gone.len() == i,
            forall|k: int|
                0 <= k < i ==> gone[k] == has_left(win.width(), items[k].1.size, items[k].0),
        decreases items.len() - i,
    {
        let bounds = win.bounds_box_outside(items[i].1.size);
        let pos = items[i].0;
        gone.push(
            pos.x > bounds.right || pos.x < bounds.left || pos.y > bounds.top || pos.y
                < bounds.bottom,
        );
        i += 1;
    }
    gone
}

} // verus!
