//! Positions, placements and sprites, with their mathematical views.

use vstd::prelude::*;

verus! {

/// Whether an integer can be stored in a coordinate.
pub open spec fn fits(v: int) -> bool {
    i64::MIN <= v <= i64::MAX
}

/// Tells whether a wide intermediate result can be stored in a coordinate.
pub fn storable(v: i128) -> (ok: bool)
    ensures
        ok == fits(v as int),
{
    -0x8000_0000_0000_0000 <= v && v <= 0x7fff_ffff_ffff_ffff
}

/// The product of a rate and a time span, wide enough never to overflow.
pub fn scaled(rate: i64, delta: u32) -> (product: i128)
    ensures
        product == rate * delta,
        -0x8000_0000_0000_0000_0000_0000 <= product <= 0x8000_0000_0000_0000_0000_0000,
{
    assert(-0x8000_0000_0000_0000_0000_0000 <= rate * delta <= 0x8000_0000_0000_0000_0000_0000)
        by (nonlinear_arith)
        requires
            -0x8000_0000_0000_0000 <= rate <= 0x8000_0000_0000_0000,
            0 <= delta <= 0x1_0000_0000,
    ;
    (rate as i128) * (delta as i128)
}

/// A point or a displacement of the plane, over the integers.
pub struct Point {
    pub x: int,
    pub y: int,
}

impl Point {
    /// Whether both coordinates can be stored.
    pub open spec fn representable(self) -> bool {
        fits(self.x) && fits(self.y)
    }
}

/// A pair of stored coordinates.
#[derive(Clone, Copy, Debug, PartialEq, Eq)]
pub struct Vec2 {
    pub x: i64,
    pub y: i64,
}

impl View for Vec2 {
    type V = Point;

    open spec fn view(&self) -> Point {
        Point { x: self.x as int, y: self.y as int }
    }
}

impl Vec2 {
    /// The origin, also the speed of a body at rest.
    pub fn zero() -> (v: Vec2)
        ensures
            v@ == (Point { x: 0, y: 0 }),
    {
        Vec2 { x: 0, y: 0 }
    }

    /// The pair of the given coordinates.
    pub fn new(x: i64, y: i64) -> (v: Vec2)
        ensures
            v@ == (Point { x: x as int, y: y as int }),
    {
        Vec2 { x, y }
    }
}

/// Where an entity stands and how it is drawn, over the integers.
pub struct Placement {
    pub translation: Point,
    pub layer: int,
    pub rotation: int,
    pub mirrored: bool,
}

impl Placement {
    /// Whether position, layer and angle can be stored.
    pub open spec fn representable(self) -> bool {
        &&& self.translation.representable()
        &&& i32::MIN <= self.layer <= i32::MAX
        &&& fits(self.rotation)
    }
}

/// Where an entity stands and how it is drawn.
#[derive(Clone, Copy, Debug, PartialEq, Eq)]
pub struct Transform {
    /// Position, in millionths of a unit.
    pub translation: Vec2,
    /// Draw order: entities of a lower layer are drawn behind.
    pub layer: i32,
    /// Angle about the depth axis, in thousandths of a radian.
    pub rotation: i64,
    /// Whether the entity is flipped by a horizontal scale of minus one.
    pub mirrored: bool,
}

impl View for Transform {
    type V = Placement;

    open spec fn view(&self) -> Placement {
        Placement {
            translation: self.translation@,
            layer: self.layer as int,
            rotation: self.rotation as int,
            mirrored: self.mirrored,
        }
    }
}

impl Transform {
    /// An upright, unmirrored placement at the given position and layer.
    pub fn from_xyz(x: i64, y: i64, layer: i32) -> (t: Transform)
        ensures
            t@ == (Placement {
                translation: Point { x: x as int, y: y as int },
                layer: layer as int,
                rotation: 0,
                mirrored: false,
            }),
    {
        Transform { translation: Vec2 { x, y }, layer, rotation: 0, mirrored: false }
    }
}

/// How an entity's image is drawn, over the integers.
pub struct Image {
    pub custom_size: Point,
    pub flip_x: bool,
}

/// How an entity's image is drawn.
#[derive(Clone, Copy, Debug, PartialEq, Eq)]
pub struct Sprite {
    /// Width and height, in millionths of a unit.
    pub custom_size: Vec2,
    /// Whether the image is mirrored horizontally.
    pub flip_x: bool,
}

impl View for Sprite {
    type V = Image;

    open spec fn view(&self) -> Image {
        Image { custom_size: self.custom_size@, flip_x: self.flip_x }
    }
}

impl Sprite {
    /// An unmirrored sprite of the given size.
    pub fn sized(width: i64, height: i64) -> (s: Sprite)
        ensures
            s@ == (Image {
                custom_size: Point { x: width as int, y: height as int },
                flip_x: false,
            }),
    {
        Sprite { custom_size: Vec2 { x: width, y: height }, flip_x: false }
    }
}

} // verus!
