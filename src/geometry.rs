//! Points and sizes in logical, physical and screen coordinates.
use vstd::prelude::*;

verus! {

/// The resolution, in dots per inch, at which logical and physical coordinates agree.
pub const DEFAULT_DPI: i32 = 96;

/// A point in the plane.
#[derive(Clone, Copy, PartialEq, Eq, Structural, Debug)]
pub struct Point<T> {
    pub x: T,
    pub y: T,
}

impl<T> Point<T> {
    pub fn new(x: T, y: T) -> (r: Point<T>)
        ensures
            r.x == x,
            r.y == y,
    {
        Point { x, y }
    }
}

/// A width and a height.
#[derive(Clone, Copy, PartialEq, Eq, Structural, Debug)]
pub struct Size<T> {
    pub width: T,
    pub height: T,
}

impl<T> Size<T> {
    pub fn new(width: T, height: T) -> (r: Size<T>)
        ensures
            r.width == width,
            r.height == height,
    {
        Size { width, height }
    }
}

/// A value in logical (resolution-independent) pixels.
#[derive(Clone, Copy, Debug)]
pub struct Logical<T>(pub T);

/// A value in physical (device) pixels, relative to a window's client area.
#[derive(Clone, Copy, Debug)]
pub struct Physical<T>(pub T);

/// A value in physical pixels, relative to the screen.
#[derive(Clone, Copy, Debug)]
pub struct Screen<T>(pub T);

pub type LogicalPoint<T> = Logical<Point<T>>;

pub type LogicalSize<T> = Logical<Size<T>>;

pub type PhysicalPoint<T> = Physical<Point<T>>;

pub type PhysicalSize<T> = Physical<Size<T>>;

pub type ScreenPoint<T> = Screen<Point<T>>;

/// Integer division rounding toward zero, as Rust's `/` does.
pub open spec fn trunc_div(a: int, b: int) -> int
    recommends
        b != 0,
{
    if (a >= 0) == (b > 0) {
        abs(a) / abs(b)
    } else {
        -(abs(a) / abs(b))
    }
}

pub open spec fn abs(a: int) -> int {
    if a >= 0 {
        a
    } else {
        -a
    }
}

/// `a / b` rounding toward zero.
pub(crate) fn div_toward_zero(a: i32, b: i32) -> (r: i32)
    requires
        b != 0,
        !(a == i32::MIN && b == -1),
    ensures
        r == trunc_div(a as int, b as int),
{
    let ua: u32 = if a >= 0 {
        a as u32
    } else {
        (0 - (a as i64)) as u32
    };
    let ub: u32 = if b >= 0 {
        b as u32
    } else {
        (0 - (b as i64)) as u32
    };
    let q: u32 = ua / ub;
    assert(q <= ua) by (nonlinear_arith)
        requires
            ub >= 1,
            q == ua / ub,
    ;
    if (a >= 0) == (b > 0) {
        if ub == 1 {
            assert(q == ua) by (nonlinear_arith)
                requires
                    ub == 1,
                    q == ua / ub,
            ;
        } else {
            assert(q <= ua / 2) by (nonlinear_arith)
                requires
                    ub >= 2,
                    q == ua / ub,
            ;
        }
        q as i32
    } else {
        (0 - (q as i64)) as i32
    }
}

/// Whether an integer fits in an `i32`.
pub open spec fn fits_i32(v: int) -> bool {
    i32::MIN <= v <= i32::MAX
}

/// A length of `a` logical pixels at resolution `dpi`, in physical pixels.
pub open spec fn physical_len(a: int, dpi: int) -> int {
    trunc_div(a * dpi, DEFAULT_DPI as int)
}

/// A length of `a` physical pixels at resolution `dpi`, in logical pixels.
pub open spec fn logical_len(a: int, dpi: int) -> int {
    trunc_div(a * DEFAULT_DPI, dpi)
}

/// Whether a signed length can be brought to physical pixels at `dpi` without overflow.
pub open spec fn physical_ok(a: int, dpi: int) -> bool {
    fits_i32(a * dpi)
}

/// Whether a signed length can be brought to logical pixels at `dpi` without overflow.
pub open spec fn logical_ok(a: int, dpi: int) -> bool {
    &&& dpi != 0
    &&& fits_i32(a * DEFAULT_DPI)
    &&& !(a * DEFAULT_DPI == i32::MIN && dpi == -1)
}

fn to_physical_value(a: i32, dpi: i32) -> (r: i32)
    requires
        physical_ok(a as int, dpi as int),
    ensures
        r == physical_len(a as int, dpi as int),
{
    div_toward_zero(a * dpi, DEFAULT_DPI)
}

fn to_logical_value(a: i32, dpi: i32) -> (r: i32)
    requires
        logical_ok(a as int, dpi as int),
    ensures
        r == logical_len(a as int, dpi as int),
{
    div_toward_zero(a * DEFAULT_DPI, dpi)
}

fn to_physical_extent(a: u32, dpi: u32) -> (r: u32)
    requires
        a * dpi <= u32::MAX,
    ensures
        r == a * dpi / (DEFAULT_DPI as int),
{
    a * dpi / (DEFAULT_DPI as u32)
}

fn to_logical_extent(a: u32, dpi: u32) -> (r: u32)
    requires
        dpi != 0,
        a * DEFAULT_DPI <= u32::MAX,
    ensures
        r == a * DEFAULT_DPI / (dpi as int),
{
    a * (DEFAULT_DPI as u32) / dpi
}

/// A signed value as a `u32`, when it is not negative.
fn cast_to_u32(v: i32) -> (r: Option<u32>)
    ensures
        v >= 0 ==> r == Some(v as u32),
        v < 0 ==> r is None,
{
    if v >= 0 {
        Some(v as u32)
    } else {
        None
    }
}

/// An unsigned value as an `i32`, when it fits.
fn cast_to_i32(v: u32) -> (r: Option<i32>)
    ensures
        v <= i32::MAX ==> r == Some(v as i32),
        v > i32::MAX ==> r is None,
{
    if v <= i32::MAX as u32 {
        Some(v as i32)
    } else {
        None
    }
}

impl Point<i32> {
    /// The point with both coordinates as `u32`, when neither is negative.
    pub fn cast(&self) -> (r: Option<Point<u32>>)
        ensures
            self.x >= 0 && self.y >= 0 ==> r == Some(Point { x: self.x as u32, y: self.y as u32 }),
            !(self.x >= 0 && self.y >= 0) ==> r is None,
    {
        match (cast_to_u32(self.x), cast_to_u32(self.y)) {
            (Some(x), Some(y)) => Some(Point { x, y }),
            _ => None,
        }
    }
}

impl Size<u32> {
    /// The size with both extents as `i32`, when both fit.
    pub fn cast(&self) -> (r: Option<Size<i32>>)
        ensures
            self.width <= i32::MAX && self.height <= i32::MAX ==> r == Some(
                Size { width: self.width as i32, height: self.height as i32 },
            ),
            !(self.width <= i32::MAX && self.height <= i32::MAX) ==> r is None,
    {
        match (cast_to_i32(self.width), cast_to_i32(self.height)) {
            (Some(width), Some(height)) => Some(Size { width, height }),
            _ => None,
        }
    }
}

impl Logical<Point<i32>> {
    /// The point with both coordinates as `u32`, when neither is negative.
    pub fn cast(&self) -> (r: Option<Logical<Point<u32>>>)
        ensures
            self.0.x >= 0 && self.0.y >= 0 ==> r == Some(
                Logical(Point { x: self.0.x as u32, y: self.0.y as u32 }),
            ),
            !(self.0.x >= 0 && self.0.y >= 0) ==> r is None,
    {
        match self.0.cast() {
            Some(p) => Some(Logical(p)),
            None => None,
        }
    }

    /// The point in physical pixels at resolution `dpi`.
    pub fn to_physical(&self, dpi: i32) -> (r: Physical<Point<i32>>)
        requires
            physical_ok(self.0.x as int, dpi as int),
            physical_ok(self.0.y as int, dpi as int),
        ensures
            r.0.x == physical_len(self.0.x as int, dpi as int),
            r.0.y == physical_len(self.0.y as int, dpi as int),
    {
        Physical(Point::new(to_physical_value(self.0.x, dpi), to_physical_value(self.0.y, dpi)))
    }
}

impl Logical<Size<u32>> {
    /// The size with both extents as `i32`, when both fit.
    pub fn cast(&self) -> (r: Option<Logical<Size<i32>>>)
        ensures
            self.0.width <= i32::MAX && self.0.height <= i32::MAX ==> r == Some(
                Logical(Size { width: self.0.width as i32, height: self.0.height as i32 }),
            ),
            !(self.0.width <= i32::MAX && self.0.height <= i32::MAX) ==> r is None,
    {
        match self.0.cast() {
            Some(v) => Some(Logical(v)),
            None => None,
        }
    }

    /// The size in physical pixels at resolution `dpi`.
    pub fn to_physical(&self, dpi: u32) -> (r: Physical<Size<u32>>)
        requires
            self.0.width * dpi <= u32::MAX,
            self.0.height * dpi <= u32::MAX,
        ensures
            r.0.width == self.0.width * dpi / (DEFAULT_DPI as int),
            r.0.height == self.0.height * dpi / (DEFAULT_DPI as int),
    {
        Physical(
            Size::new(to_physical_extent(self.0.width, dpi), to_physical_extent(self.0.height, dpi)),
        )
    }
}

impl Physical<Point<i32>> {
    /// The point with both coordinates as `u32`, when neither is negative.
    pub fn cast(&self) -> (r: Option<Physical<Point<u32>>>)
        ensures
            self.0.x >= 0 && self.0.y >= 0 ==> r == Some(
                Physical(Point { x: self.0.x as u32, y: self.0.y as u32 }),
            ),
            !(self.0.x >= 0 && self.0.y >= 0) ==> r is None,
    {
        match self.0.cast() {
            Some(p) => Some(Physical(p)),
            None => None,
        }
    }

    /// The point in logical pixels at resolution `dpi`.
    pub fn to_logical(&self, dpi: i32) -> (r: Logical<Point<i32>>)
        requires
            logical_ok(self.0.x as int, dpi as int),
            logical_ok(self.0.y as int, dpi as int),
        ensures
            r.0.x == logical_len(self.0.x as int, dpi as int),
            r.0.y == logical_len(self.0.y as int, dpi as int),
    {
        Logical(Point::new(to_logical_value(self.0.x, dpi), to_logical_value(self.0.y, dpi)))
    }
}

impl Physical<Size<u32>> {
    /// The size with both extents as `i32`, when both fit.
    pub fn cast(&self) -> (r: Option<Physical<Size<i32>>>)
        ensures
            self.0.width <= i32::MAX && self.0.height <= i32::MAX ==> r == Some(
                Physical(Size { width: self.0.width as i32, height: self.0.height as i32 }),
            ),
            !(self.0.width <= i32::MAX && self.0.height <= i32::MAX) ==> r is None,
    {
        match self.0.cast() {
            Some(v) => Some(Physical(v)),
            None => None,
        }
    }

    /// The size in logical pixels at resolution `dpi`.
    pub fn to_logical(&self, dpi: u32) -> (r: Logical<Size<u32>>)
        requires
            dpi != 0,
            self.0.width * DEFAULT_DPI <= u32::MAX,
            self.0.height * DEFAULT_DPI <= u32::MAX,
        ensures
            r.0.width == self.0.width * DEFAULT_DPI / (dpi as int),
            r.0.height == self.0.height * DEFAULT_DPI / (dpi as int),
    {
        Logical(
            Size::new(to_logical_extent(self.0.width, dpi), to_logical_extent(self.0.height, dpi)),
        )
    }
}

impl Screen<Point<i32>> {
    /// The point with both coordinates as `u32`, when neither is negative.
    pub fn cast(&self) -> (r: Option<Screen<Point<u32>>>)
        ensures
            self.0.x >= 0 && self.0.y >= 0 ==> r == Some(
                Screen(Point { x: self.0.x as u32, y: self.0.y as u32 }),
            ),
            !(self.0.x >= 0 && self.0.y >= 0) ==> r is None,
    {
        match self.0.cast() {
            Some(p) => Some(Screen(p)),
            None => None,
        }
    }
}

impl<T> std::ops::Deref for Logical<T> {
    type Target = T;

    fn deref(&self) -> (r: &T)
        ensures
            *r == self.0,
    {
        &self.0
    }
}

impl<T> std::ops::DerefMut for Logical<T> {
    fn deref_mut(&mut self) -> (r: &mut T)
        ensures
            *r == old(self).0,
            final(self).0 == *final(r),
    {
        &mut self.0
    }
}

impl<T> std::ops::Deref for Physical<T> {
    type Target = T;

    fn deref(&self) -> (r: &T)
        ensures
            *r == self.0,
    {
        &self.0
    }
}

impl<T> std::ops::DerefMut for Physical<T> {
    fn deref_mut(&mut self) -> (r: &mut T)
        ensures
            *r == old(self).0,
            final(self).0 == *final(r),
    {
        &mut self.0
    }
}

impl<T> std::ops::Deref for Screen<T> {
    type Target = T;

    fn deref(&self) -> (r: &T)
        ensures
            *r == self.0,
    {
        &self.0
    }
}

impl<T> std::ops::DerefMut for Screen<T> {
    fn deref_mut(&mut self) -> (r: &mut T)
        ensures
            *r == old(self).0,
            final(self).0 == *final(r),
    {
        &mut self.0
    }
}

/// Brings a point or a size to logical pixels.
pub trait ToLogical {
    type Output;

    type Value;

    /// Whether the conversion at resolution `dpi` is defined and does not overflow.
    spec fn to_logical_ok(&self, dpi: Self::Value) -> bool;

    /// The value in logical pixels at resolution `dpi`.
    spec fn logical_value(&self, dpi: Self::Value) -> Logical<Self::Output>;

    fn to_logical(&self, dpi: Self::Value) -> (r: Logical<Self::Output>)
        requires
            self.to_logical_ok(dpi),
        ensures
            r == self.logical_value(dpi),
    ;
}

/// Brings a point or a size to physical pixels.
pub trait ToPhysical {
    type Output;

    type Value;

    /// Whether the conversion at resolution `dpi` is defined and does not overflow.
    spec fn to_physical_ok(&self, dpi: Self::Value) -> bool;

    /// The value in physical pixels at resolution `dpi`.
    spec fn physical_value(&self, dpi: Self::Value) -> Physical<Self::Output>;

    fn to_physical(&self, dpi: Self::Value) -> (r: Physical<Self::Output>)
        requires
            self.to_physical_ok(dpi),
        ensures
            r == self.physical_value(dpi),
    ;
}

impl ToLogical for Logical<Point<i32>> {
    type Output = Point<i32>;

    type Value = i32;

    open spec fn to_logical_ok(&self, dpi: i32) -> bool {
        true
    }

    open spec fn logical_value(&self, dpi: i32) -> Logical<Point<i32>> {
        *self
    }

    fn to_logical(&self, dpi: i32) -> (r: Logical<Point<i32>>) {
        *self
    }
}

impl ToLogical for Physical<Point<i32>> {
    type Output = Point<i32>;

    type Value = i32;

    open spec fn to_logical_ok(&self, dpi: i32) -> bool {
        logical_ok(self.0.x as int, dpi as int) && logical_ok(self.0.y as int, dpi as int)
    }

    open spec fn logical_value(&self, dpi: i32) -> Logical<Point<i32>> {
        Logical(
            Point {
                x: logical_len(self.0.x as int, dpi as int) as i32,
                y: logical_len(self.0.y as int, dpi as int) as i32,
            },
        )
    }

    fn to_logical(&self, dpi: i32) -> (r: Logical<Point<i32>>) {
        Physical::<Point<i32>>::to_logical(self, dpi)
    }
}

impl ToPhysical for Logical<Point<i32>> {
    type Output = Point<i32>;

    type Value = i32;

    open spec fn to_physical_ok(&self, dpi: i32) -> bool {
        physical_ok(self.0.x as int, dpi as int) && physical_ok(self.0.y as int, dpi as int)
    }

    open spec fn physical_value(&self, dpi: i32) -> Physical<Point<i32>> {
        Physical(
            Point {
                x: physical_len(self.0.x as int, dpi as int) as i32,
                y: physical_len(self.0.y as int, dpi as int) as i32,
            },
        )
    }

    fn to_physical(&self, dpi: i32) -> (r: Physical<Point<i32>>) {
        Logical::<Point<i32>>::to_physical(self, dpi)
    }
}

impl ToPhysical for Physical<Point<i32>> {
    type Output = Point<i32>;

    type Value = i32;

    open spec fn to_physical_ok(&self, dpi: i32) -> bool {
        true
    }

    open spec fn physical_value(&self, dpi: i32) -> Physical<Point<i32>> {
        *self
    }

    fn to_physical(&self, dpi: i32) -> (r: Physical<Point<i32>>) {
        *self
    }
}

impl ToLogical for Logical<Size<u32>> {
    type Output = Size<u32>;

    type Value = u32;

    open spec fn to_logical_ok(&self, dpi: u32) -> bool {
        true
    }

    open spec fn logical_value(&self, dpi: u32) -> Logical<Size<u32>> {
        *self
    }

    fn to_logical(&self, dpi: u32) -> (r: Logical<Size<u32>>) {
        *self
    }
}

impl ToLogical for Physical<Size<u32>> {
    type Output = Size<u32>;

    type Value = u32;

    open spec fn to_logical_ok(&self, dpi: u32) -> bool {
        dpi != 0 && self.0.width * DEFAULT_DPI <= u32::MAX && self.0.height * DEFAULT_DPI <= u32::MAX
    }

    open spec fn logical_value(&self, dpi: u32) -> Logical<Size<u32>> {
        Logical(
            Size {
                width: (self.0.width * DEFAULT_DPI / (dpi as int)) as u32,
                height: (self.0.height * DEFAULT_DPI / (dpi as int)) as u32,
            },
        )
    }

    fn to_logical(&self, dpi: u32) -> (r: Logical<Size<u32>>) {
        Physical::<Size<u32>>::to_logical(self, dpi)
    }
}

impl ToPhysical for Logical<Size<u32>> {
    type Output = Size<u32>;

    type Value = u32;

    open spec fn to_physical_ok(&self, dpi: u32) -> bool {
        self.0.width * dpi <= u32::MAX && self.0.height * dpi <= u32::MAX
    }

    open spec fn physical_value(&self, dpi: u32) -> Physical<Size<u32>> {
        Physical(
            Size {
                width: (self.0.width * dpi / (DEFAULT_DPI as int)) as u32,
                height: (self.0.height * dpi / (DEFAULT_DPI as int)) as u32,
            },
        )
    }

    fn to_physical(&self, dpi: u32) -> (r: Physical<Size<u32>>) {
        Logical::<Size<u32>>::to_physical(self, dpi)
    }
}

impl ToPhysical for Physical<Size<u32>> {
    type Output = Size<u32>;

    type Value = u32;

    open spec fn to_physical_ok(&self, dpi: u32) -> bool {
        true
    }

    open spec fn physical_value(&self, dpi: u32) -> Physical<Size<u32>> {
        *self
    }

    fn to_physical(&self, dpi: u32) -> (r: Physical<Size<u32>>) {
        *self
    }
}

} // verus!
