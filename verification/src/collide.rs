//! Pairwise collision predicates over integer geometry.
//!
//! Every shape pair that opts into [`CollideWith`] supplies one
//! primary predicate; the swapped order delegates to it, so both call
//! orders always agree.  All predicates use one boundary convention,
//! uniformly: shapes are closed regions, so touching counts as
//! colliding.

use vstd::prelude::*;

verus! {

/// A point, or 2-D vector, with integer coordinates.
#[derive(Clone, Copy, PartialEq, Eq, Structural, Debug)]
pub struct Vec2 {
    /// Horizontal coordinate.
    pub x: i32,
    /// Vertical coordinate.
    pub y: i32,
}

/// An axis-aligned rectangle: the closed region from `(x, y)` to
/// `(x + width, y + height)`.
#[derive(Clone, Copy, PartialEq, Eq, Structural, Debug)]
pub struct Rectangle {
    /// Horizontal coordinate of one corner.
    pub x: i32,
    /// Vertical coordinate of one corner.
    pub y: i32,
    /// Horizontal extent.
    pub width: i32,
    /// Vertical extent.
    pub height: i32,
}

/// A circle: the closed disc around `center` with the given radius.
#[derive(Clone, Copy, PartialEq, Eq, Structural, Debug)]
pub struct Circle {
    /// Center of the disc.
    pub center: Vec2,
    /// Radius of the disc.
    pub radius: i32,
}

/// A triangle with the three corners `a`, `b` and `c` (closed region).
#[derive(Clone, Copy, PartialEq, Eq, Structural, Debug)]
pub struct Triangle {
    /// First corner.
    pub a: Vec2,
    /// Second corner.
    pub b: Vec2,
    /// Third corner.
    pub c: Vec2,
}

/// Squared euclidean distance between two points.
pub open spec fn dist_sq(p: Vec2, q: Vec2) -> int {
    (p.x - q.x) * (p.x - q.x) + (p.y - q.y) * (p.y - q.y)
}

/// Cross product of the vectors `o -> a` and `o -> b`; its sign says
/// on which side of the directed line through `o` and `a` the point
/// `b` lies.
pub open spec fn cross(o: Vec2, a: Vec2, b: Vec2) -> int {
    (a.x - o.x) * (b.y - o.y) - (a.y - o.y) * (b.x - o.x)
}

/// Whether two rectangles share at least one point (touching edges or
/// corners count).
pub open spec fn rects_overlap(a: Rectangle, b: Rectangle) -> bool {
    &&& a.x <= b.x + b.width
    &&& b.x <= a.x + a.width
    &&& a.y <= b.y + b.height
    &&& b.y <= a.y + a.height
}

/// Whether a point lies in a rectangle (the boundary counts).
pub open spec fn point_in_rect(p: Vec2, r: Rectangle) -> bool {
    &&& r.x <= p.x <= r.x + r.width
    &&& r.y <= p.y <= r.y + r.height
}

/// Whether two circles share at least one point (touching at a single
/// point counts).
pub open spec fn circles_overlap(a: Circle, b: Circle) -> bool {
    dist_sq(a.center, b.center) <= (a.radius + b.radius) * (a.radius + b.radius)
}

/// Whether a point lies in a circle (the boundary counts).
pub open spec fn point_in_circle(p: Vec2, c: Circle) -> bool {
    dist_sq(p, c.center) <= c.radius * c.radius
}

/// Whether a point lies in a triangle (the boundary counts): the point
/// must not lie strictly on opposite sides of any two edges.
pub open spec fn point_in_triangle(p: Vec2, t: Triangle) -> bool {
    let d1 = cross(t.a, t.b, p);
    let d2 = cross(t.b, t.c, p);
    let d3 = cross(t.c, t.a, p);
    (d1 >= 0 && d2 >= 0 && d3 >= 0) || (d1 <= 0 && d2 <= 0 && d3 <= 0)
}

/// Defines how an object collides with other objects.
///
/// For each unordered pair of shape types there is exactly one primary
/// predicate; the implementation for the swapped order delegates to it
/// with the arguments exchanged, so `a.check_collision(&b)` and
/// `b.check_collision(&a)` always return the same value.
pub trait CollideWith<T> {
    /// Information about the collision.
    type Output;

    /// The value `check_collision` returns.
    spec fn collision_spec(&self, other: &T) -> Self::Output;

    /// Checks if the two objects are overlapping.
    fn check_collision(&self, other: &T) -> (r: Self::Output)
        ensures
            r == self.collision_spec(other),
    ;
}

impl CollideWith<Rectangle> for Rectangle {
    type Output = bool;

    open spec fn collision_spec(&self, other: &Rectangle) -> bool {
        rects_overlap(*self, *other)
    }

    fn check_collision(&self, other: &Rectangle) -> (r: bool) {
        let ax = self.x as i64;
        let ay = self.y as i64;
        let bx = other.x as i64;
        let by = other.y as i64;
        ax <= bx + other.width as i64 && bx <= ax + self.width as i64
            && ay <= by + other.height as i64 && by <= ay + self.height as i64
    }
}

impl CollideWith<Vec2> for Rectangle {
    type Output = bool;

    open spec fn collision_spec(&self, other: &Vec2) -> bool {
        point_in_rect(*other, *self)
    }

    fn check_collision(&self, other: &Vec2) -> (r: bool) {
        let px = other.x as i64;
        let py = other.y as i64;
        let rx = self.x as i64;
        let ry = self.y as i64;
        rx <= px && px <= rx + self.width as i64 && ry <= py && py <= ry + self.height as i64
    }
}

impl CollideWith<Rectangle> for Vec2 {
    type Output = bool;

    open spec fn collision_spec(&self, other: &Rectangle) -> bool {
        other.collision_spec(self)
    }

    fn check_collision(&self, other: &Rectangle) -> (r: bool) {
        other.check_collision(self)
    }
}

impl CollideWith<Circle> for Circle {
    type Output = bool;

    open spec fn collision_spec(&self, other: &Circle) -> bool {
        circles_overlap(*self, *other)
    }

    fn check_collision(&self, other: &Circle) -> (r: bool) {
        let dx = (self.center.x as i64 - other.center.x as i64) as i128;
        let dy = (self.center.y as i64 - other.center.y as i64) as i128;
        let rs = (self.radius as i64 + other.radius as i64) as i128;
        proof {
            lemma_product_bound(dx as int, dx as int);
            lemma_product_bound(dy as int, dy as int);
            lemma_product_bound(rs as int, rs as int);
        }
        dx * dx + dy * dy <= rs * rs
    }
}

impl CollideWith<Vec2> for Circle {
    type Output = bool;

    open spec fn collision_spec(&self, other: &Vec2) -> bool {
        point_in_circle(*other, *self)
    }

    fn check_collision(&self, other: &Vec2) -> (r: bool) {
        let dx = (other.x as i64 - self.center.x as i64) as i128;
        let dy = (other.y as i64 - self.center.y as i64) as i128;
        let rad = self.radius as i128;
        proof {
            lemma_product_bound(dx as int, dx as int);
            lemma_product_bound(dy as int, dy as int);
            lemma_product_bound(rad as int, rad as int);
        }
        dx * dx + dy * dy <= rad * rad
    }
}

impl CollideWith<Circle> for Vec2 {
    type Output = bool;

    open spec fn collision_spec(&self, other: &Circle) -> bool {
        other.collision_spec(self)
    }

    fn check_collision(&self, other: &Circle) -> (r: bool) {
        other.check_collision(self)
    }
}

impl CollideWith<Vec2> for Triangle {
    type Output = bool;

    open spec fn collision_spec(&self, other: &Vec2) -> bool {
        point_in_triangle(*other, *self)
    }

    fn check_collision(&self, other: &Vec2) -> (r: bool) {
        let d1 = cross_exec(self.a, self.b, *other);
        let d2 = cross_exec(self.b, self.c, *other);
        let d3 = cross_exec(self.c, self.a, *other);
        (d1 >= 0 && d2 >= 0 && d3 >= 0) || (d1 <= 0 && d2 <= 0 && d3 <= 0)
    }
}

impl CollideWith<Triangle> for Vec2 {
    type Output = bool;

    open spec fn collision_spec(&self, other: &Triangle) -> bool {
        other.collision_spec(self)
    }

    fn check_collision(&self, other: &Triangle) -> (r: bool) {
        other.check_collision(self)
    }
}

/// Computes [`cross`] exactly; every intermediate value fits in `i128`.
fn cross_exec(o: Vec2, a: Vec2, b: Vec2) -> (r: i128)
    ensures
        r == cross(o, a, b),
{
    let v1x = (a.x as i64 - o.x as i64) as i128;
    let v1y = (a.y as i64 - o.y as i64) as i128;
    let v2x = (b.x as i64 - o.x as i64) as i128;
    let v2y = (b.y as i64 - o.y as i64) as i128;
    proof {
        lemma_product_bound(v1x as int, v2y as int);
        lemma_product_bound(v1y as int, v2x as int);
    }
    v1x * v2y - v1y * v2x
}

/// Symmetry law: two rectangles overlap no matter which of them is
/// asked.
pub proof fn lemma_rect_rect_symmetric(a: Rectangle, b: Rectangle)
    ensures
        a.collision_spec(&b) == b.collision_spec(&a),
{
}

/// Symmetry law: a rectangle collides with a point exactly when the
/// point collides with the rectangle.
pub proof fn lemma_rect_point_symmetric(r: Rectangle, p: Vec2)
    ensures
        r.collision_spec(&p) == p.collision_spec(&r),
{
}

/// Symmetry law: two circles overlap no matter which of them is
/// asked.
pub proof fn lemma_circle_circle_symmetric(a: Circle, b: Circle)
    ensures
        a.collision_spec(&b) == b.collision_spec(&a),
{
    assert((a.center.x - b.center.x) * (a.center.x - b.center.x) == (b.center.x - a.center.x) * (
    b.center.x - a.center.x)) by (nonlinear_arith);
    assert((a.center.y - b.center.y) * (a.center.y - b.center.y) == (b.center.y - a.center.y) * (
    b.center.y - a.center.y)) by (nonlinear_arith);
}

/// Symmetry law: a circle collides with a point exactly when the
/// point collides with the circle.
pub proof fn lemma_circle_point_symmetric(c: Circle, p: Vec2)
    ensures
        c.collision_spec(&p) == p.collision_spec(&c),
{
}

/// Symmetry law: a triangle collides with a point exactly when the
/// point collides with the triangle.
pub proof fn lemma_triangle_point_symmetric(t: Triangle, p: Vec2)
    ensures
        t.collision_spec(&p) == p.collision_spec(&t),
{
}

/// Boundary convention: two rectangles of non-negative extent that
/// merely touch along a shared edge or corner do collide.
pub proof fn lemma_touching_rectangles_collide(a: Rectangle, b: Rectangle)
    requires
        a.width >= 0,
        b.width >= 0,
        a.x + a.width == b.x,
        a.y <= b.y + b.height,
        b.y <= a.y + a.height,
    ensures
        a.collision_spec(&b),
{
}

/// Boundary convention: the same holds when the shared edge is
/// horizontal.
pub proof fn lemma_touching_rectangles_collide_below(a: Rectangle, b: Rectangle)
    requires
        a.height >= 0,
        b.height >= 0,
        a.y + a.height == b.y,
        a.x <= b.x + b.width,
        b.x <= a.x + a.width,
    ensures
        a.collision_spec(&b),
{
}

/// Boundary convention: a point on the edge of a rectangle of
/// non-negative extent is contained in it, in both call orders.
pub proof fn lemma_boundary_point_in_rectangle(r: Rectangle, p: Vec2)
    requires
        r.height >= 0,
        p.x == r.x || p.x == r.x + r.width,
        r.x <= p.x <= r.x + r.width,
        r.y <= p.y <= r.y + r.height,
    ensures
        r.collision_spec(&p),
        p.collision_spec(&r),
{
}

/// Boundary convention: two circles that touch at exactly one point
/// (the squared center distance equals the squared sum of the radii)
/// do collide.
pub proof fn lemma_touching_circles_collide(a: Circle, b: Circle)
    requires
        dist_sq(a.center, b.center) == (a.radius + b.radius) * (a.radius + b.radius),
    ensures
        a.collision_spec(&b),
        b.collision_spec(&a),
{
    lemma_circle_circle_symmetric(a, b);
}

/// The product of two values no larger than `2^32` in magnitude stays
/// well within `i128`.
proof fn lemma_product_bound(a: int, b: int)
    requires
        -0x1_0000_0000 <= a <= 0x1_0000_0000,
        -0x1_0000_0000 <= b <= 0x1_0000_0000,
    ensures
        -0x1_0000_0000_0000_0000 <= a * b <= 0x1_0000_0000_0000_0000,
{
    assert(-0x1_0000_0000_0000_0000 <= a * b <= 0x1_0000_0000_0000_0000) by (nonlinear_arith)
        requires
            -0x1_0000_0000 <= a <= 0x1_0000_0000,
            -0x1_0000_0000 <= b <= 0x1_0000_0000,
    ;
}

} // verus!
