//! Lengths and the small vector types that the records are built from.

use vstd::prelude::*;
use crate::replace::Replaceable;

verus! {

/// A number in whole thousandths: `1_000` is one logical pixel, one percent,
/// or a scale factor of one.
pub type Milli = i32;

impl Replaceable for Milli {
    open spec fn unset() -> Milli {
        0
    }

    fn is_unset(&self) -> (b: bool) {
        *self == 0
    }
}

impl Replaceable for Option<Milli> {
    open spec fn unset() -> Option<Milli> {
        None
    }

    fn is_unset(&self) -> (b: bool) {
        self.is_none()
    }
}

impl Replaceable for bool {
    open spec fn unset() -> bool {
        false
    }

    fn is_unset(&self) -> (b: bool) {
        !*self
    }
}

/// A length along one axis.
#[derive(Clone, Copy, Debug, PartialEq, Eq, Structural)]
pub enum Val {
    Auto,
    Px(Milli),
    Percent(Milli),
    Vw(Milli),
    Vh(Milli),
    VMin(Milli),
    VMax(Milli),
}

impl Val {
    /// A length of zero pixels.
    pub open spec fn zero() -> Val {
        Val::Px(0)
    }
}

impl Default for Val {
    fn default() -> (r: Val)
        ensures
            r == Val::Auto,
    {
        Val::Auto
    }
}

impl Replaceable for Val {
    open spec fn unset() -> Val {
        Val::Auto
    }

    fn is_unset(&self) -> (b: bool) {
        *self == Val::Auto
    }
}

/// Four lengths, one per edge of a box.
#[derive(Clone, Copy, Debug, PartialEq, Eq, Structural)]
pub struct UiRect {
    pub left: Val,
    pub right: Val,
    pub top: Val,
    pub bottom: Val,
}

impl UiRect {
    /// The rectangle with the four given edges.
    pub fn new(left: Val, right: Val, top: Val, bottom: Val) -> (r: UiRect)
        ensures
            r == (UiRect { left, right, top, bottom }),
    {
        UiRect { left, right, top, bottom }
    }

    /// The rectangle with the four given edges, each in thousandths of a pixel.
    pub fn px(left: Milli, right: Milli, top: Milli, bottom: Milli) -> (r: UiRect)
        ensures
            r == (UiRect {
                left: Val::Px(left),
                right: Val::Px(right),
                top: Val::Px(top),
                bottom: Val::Px(bottom),
            }),
    {
        UiRect { left: Val::Px(left), right: Val::Px(right), top: Val::Px(top), bottom: Val::Px(bottom) }
    }

    /// The rectangle with every edge set to `value`.
    pub fn all(value: Val) -> (r: UiRect)
        ensures
            r == (UiRect { left: value, right: value, top: value, bottom: value }),
    {
        UiRect { left: value, right: value, top: value, bottom: value }
    }

    /// Zero on every edge but the left one.
    pub fn left(value: Val) -> (r: UiRect)
        ensures
            r == (UiRect { left: value, ..UiRect::unset() }),
    {
        UiRect { left: value, right: Val::Px(0), top: Val::Px(0), bottom: Val::Px(0) }
    }

    /// Zero on every edge but the right one.
    pub fn right(value: Val) -> (r: UiRect)
        ensures
            r == (UiRect { right: value, ..UiRect::unset() }),
    {
        UiRect { left: Val::Px(0), right: value, top: Val::Px(0), bottom: Val::Px(0) }
    }

    /// Zero on every edge but the bottom one.
    pub fn bottom(value: Val) -> (r: UiRect)
        ensures
            r == (UiRect { bottom: value, ..UiRect::unset() }),
    {
        UiRect { left: Val::Px(0), right: Val::Px(0), top: Val::Px(0), bottom: value }
    }
}

impl Default for UiRect {
    fn default() -> (r: UiRect)
        ensures
            r == UiRect::unset(),
    {
        UiRect { left: Val::Px(0), right: Val::Px(0), top: Val::Px(0), bottom: Val::Px(0) }
    }
}

impl Replaceable for UiRect {
    open spec fn unset() -> UiRect {
        UiRect { left: Val::zero(), right: Val::zero(), top: Val::zero(), bottom: Val::zero() }
    }

    fn is_unset(&self) -> (b: bool) {
        *self == UiRect::default()
    }
}

/// A point or an extent in the plane.
#[derive(Clone, Copy, Debug, PartialEq, Eq, Structural)]
pub struct Vec2 {
    pub x: Milli,
    pub y: Milli,
}

impl Default for Vec2 {
    fn default() -> (r: Vec2)
        ensures
            r == Vec2::unset(),
    {
        Vec2 { x: 0, y: 0 }
    }
}

impl Replaceable for Vec2 {
    open spec fn unset() -> Vec2 {
        Vec2 { x: 0, y: 0 }
    }

    fn is_unset(&self) -> (b: bool) {
        self.x == 0 && self.y == 0
    }
}

/// A point, an extent or a scale in space.
#[derive(Clone, Copy, Debug, PartialEq, Eq, Structural)]
pub struct Vec3 {
    pub x: Milli,
    pub y: Milli,
    pub z: Milli,
}

impl Vec3 {
    /// The vector with the three given parts.
    pub fn new(x: Milli, y: Milli, z: Milli) -> (r: Vec3)
        ensures
            r == (Vec3 { x, y, z }),
    {
        Vec3 { x, y, z }
    }
}

/// A rotation, as a quaternion.
#[derive(Clone, Copy, Debug, PartialEq, Eq, Structural)]
pub struct Quat {
    pub x: Milli,
    pub y: Milli,
    pub z: Milli,
    pub w: Milli,
}

} // verus!
