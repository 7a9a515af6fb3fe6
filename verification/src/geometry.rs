//! Sizes, positions and the integer side of scaling between physical and
//! device-independent pixels.

use vstd::prelude::*;

verus! {

/// A size in physical pixels.
#[derive(Clone, Copy, Debug, PartialEq, Eq, Structural)]
pub struct PhysicalSize {
    pub width: u32,
    pub height: u32,
}

/// A position in physical pixels.
#[derive(Clone, Copy, Debug, PartialEq, Eq, Structural)]
pub struct PhysicalPosition {
    pub x: i32,
    pub y: i32,
}

/// A rectangle as CEF passes it, in device-independent pixels unless said otherwise.
#[derive(Clone, Copy, Debug, PartialEq, Eq, Structural)]
pub struct Rect {
    pub x: i32,
    pub y: i32,
    pub width: i32,
    pub height: i32,
}

/// A size as CEF passes it, in device-independent pixels.
#[derive(Clone, Copy, Debug, PartialEq, Eq, Structural)]
pub struct CefSize {
    pub width: i32,
    pub height: i32,
}

/// An IEEE 754 binary64 number, carried by its bit pattern.
///
/// The library passes such numbers on and compares them; it never computes with
/// them.
#[derive(Clone, Copy, Debug, PartialEq, Eq, Structural)]
pub struct Binary64 {
    pub bits: u64,
}

/// A size the way callers give it: in physical pixels, or in logical ones, which
/// are fractional.
#[derive(Clone, Copy, Debug, PartialEq, Eq, Structural)]
pub enum Size {
    Physical(PhysicalSize),
    Logical { width: Binary64, height: Binary64 },
}

/// The weight of the sign bit of a binary64 pattern.
pub const SIGN_WEIGHT: u64 = 0x8000_0000_0000_0000;

/// The pattern of positive infinity. Magnitudes above it are not numbers.
pub const INFINITY_BITS: u64 = 0x7ff0_0000_0000_0000;

/// The pattern of one.
pub const ONE_BITS: u64 = 0x3ff0_0000_0000_0000;

impl Binary64 {
    /// The pattern without its sign.
    pub open spec fn magnitude(self) -> int {
        self.bits as int % SIGN_WEIGHT as int
    }

    pub open spec fn is_nan(self) -> bool {
        self.magnitude() > INFINITY_BITS
    }

    pub open spec fn is_zero(self) -> bool {
        self.magnitude() == 0
    }

    /// Numeric equality: not-a-number equals nothing, and the two zeros are equal.
    pub open spec fn equals(self, other: Binary64) -> bool {
        &&& !self.is_nan()
        &&& !other.is_nan()
        &&& self.bits == other.bits || (self.is_zero() && other.is_zero())
    }

    /// Greater than zero.
    pub open spec fn above_zero(self) -> bool {
        0 < self.bits <= INFINITY_BITS
    }

    /// Whether the two numbers differ.
    pub fn differs(self, other: Binary64) -> (r: bool)
        ensures
            r == !self.equals(other),
    {
        let a: u64 = self.bits % SIGN_WEIGHT;
        let b: u64 = other.bits % SIGN_WEIGHT;
        a > INFINITY_BITS || b > INFINITY_BITS || (self.bits != other.bits && !(a == 0 && b == 0))
    }

    /// Whether the number is greater than zero.
    pub fn is_positive(self) -> (r: bool)
        ensures
            r == self.above_zero(),
    {
        0 < self.bits && self.bits <= INFINITY_BITS
    }

    /// One.
    pub fn one() -> (r: Binary64)
        ensures
            r.bits == ONE_BITS,
    {
        Binary64 { bits: ONE_BITS }
    }
}

/// The value nearest to `value` between `low` and `high`.
pub open spec fn clamped(value: int, low: int, high: int) -> int {
    if value < low {
        low
    } else if value > high {
        high
    } else {
        value
    }
}

/// The nearest value that fits.
pub fn saturate_i32(value: i64) -> (r: i32)
    ensures
        r == clamped(value as int, i32::MIN as int, i32::MAX as int),
        i32::MIN <= value <= i32::MAX ==> r == value,
        value > i32::MAX ==> r == i32::MAX,
        value < i32::MIN ==> r == i32::MIN,
{
    if value < i32::MIN as i64 {
        i32::MIN
    } else if value > i32::MAX as i64 {
        i32::MAX
    } else {
        value as i32
    }
}

/// The nearest value that fits.
pub fn saturate_u32(value: i64) -> (r: u32)
    ensures
        r == clamped(value as int, 0, u32::MAX as int),
        0 <= value <= u32::MAX ==> r == value,
        value > u32::MAX ==> r == u32::MAX,
        value < 0 ==> r == 0,
{
    if value < 0 {
        0
    } else if value > u32::MAX as i64 {
        u32::MAX
    } else {
        value as u32
    }
}

/// A CEF dimension from a physical one divided by the scale factor and rounded:
/// never below one pixel.
pub fn cef_dimension(quotient: i64) -> (r: i32)
    ensures
        r == clamped(quotient as int, 1, i32::MAX as int),
        1 <= quotient <= i32::MAX ==> r == quotient,
        quotient > i32::MAX ==> r == i32::MAX,
        quotient < 1 ==> r == 1,
{
    if quotient < 1 {
        1
    } else {
        saturate_i32(quotient)
    }
}

/// A CEF size from a physical one whose dimensions were divided by the scale
/// factor and rounded.
pub fn cef_size(width: i64, height: i64) -> (r: CefSize)
    ensures
        r.width == clamped(width as int, 1, i32::MAX as int),
        r.height == clamped(height as int, 1, i32::MAX as int),
{
    CefSize { width: cef_dimension(width), height: cef_dimension(height) }
}

/// A CEF dimension keeps the order of what it is made from, and is never below one
/// pixel.
pub proof fn dimensions_keep_their_order(smaller: int, larger: int)
    requires
        smaller <= larger,
    ensures
        clamped(smaller, 1, i32::MAX as int) <= clamped(larger, 1, i32::MAX as int),
        1 <= clamped(smaller, 1, i32::MAX as int),
{
}

/// The size that stands for "no limit" in CEF's size queries.
pub fn no_size() -> (r: CefSize)
    ensures
        r == (CefSize { width: 0, height: 0 }),
{
    CefSize { width: 0, height: 0 }
}

/// The position and size of a rectangle that is already in physical pixels; a
/// negative extent counts as none.
pub fn physical_bounds(pixels: Rect) -> (r: (PhysicalPosition, PhysicalSize))
    ensures
        r.0 == (PhysicalPosition { x: pixels.x, y: pixels.y }),
        r.1.width == (if pixels.width > 0 { pixels.width as int } else { 0 }),
        r.1.height == (if pixels.height > 0 { pixels.height as int } else { 0 }),
        pixels.width >= 0 ==> r.1.width == pixels.width,
        pixels.height >= 0 ==> r.1.height == pixels.height,
        pixels.width < 0 ==> r.1.width == 0,
        pixels.height < 0 ==> r.1.height == 0,
{
    let size = PhysicalSize {
        width: saturate_u32(pixels.width as i64),
        height: saturate_u32(pixels.height as i64),
    };
    (PhysicalPosition { x: pixels.x, y: pixels.y }, size)
}

/// The scale factor of a window: that of its display, or one where it has none.
pub fn scale_factor(display: Option<Binary64>) -> (r: Binary64)
    ensures
        r == (match display {
            Some(factor) => factor,
            None => Binary64 { bits: ONE_BITS },
        }),
        display matches Some(factor) ==> r == factor,
        display is None ==> r.bits == 0x3ff0_0000_0000_0000,
{
    match display {
        Some(factor) => factor,
        None => Binary64::one(),
    }
}

/// The scale factor of the window that a view is in, given as what the window's
/// display reports, or the fallback where the view is in no window.
pub fn view_scale_factor(window: Option<Option<Binary64>>, fallback: Binary64) -> (r: Binary64)
    ensures
        r == (match window {
            Some(Some(factor)) => factor,
            Some(None) => Binary64 { bits: ONE_BITS },
            None => fallback,
        }),
        window matches Some(Some(factor)) ==> r == factor,
        window matches Some(None) ==> r.bits == 0x3ff0_0000_0000_0000,
        window is None ==> r == fallback,
{
    match window {
        Some(display) => scale_factor(display),
        None => fallback,
    }
}

/// Clamping gives the nearest number between the two bounds: no other number between
/// them is nearer, and a number that lies between them stays as it is.
pub proof fn clamping_is_nearest(value: int, low: int, high: int, other: int)
    requires
        low <= other <= high,
    ensures
        low <= clamped(value, low, high) <= high,
        low <= value <= high ==> clamped(value, low, high) == value,
        value < low ==> clamped(value, low, high) == low,
        value > high ==> clamped(value, low, high) == high,
        vstd::math::abs(clamped(value, low, high) - value) <= vstd::math::abs(other - value),
{
}

/// Comparing by patterns is comparing numbers: two numbers are equal if their
/// patterns are, or if both are zeros; equality goes both ways; and only what is not
/// a number differs from itself. The numbers above zero are the patterns from the
/// least to infinity's.
pub proof fn patterns_compare_as_numbers(a: Binary64, b: Binary64)
    ensures
        a.equals(b) == b.equals(a),
        a.equals(a) <==> (a.bits <= 0x7ff0_0000_0000_0000 || 0x8000_0000_0000_0000 <= a.bits
            <= 0xfff0_0000_0000_0000),
        a.equals(a) && b.equals(b) ==> (a.equals(b) <==> a.bits == b.bits || ((a.bits == 0 || a.bits
            == 0x8000_0000_0000_0000) && (b.bits == 0 || b.bits == 0x8000_0000_0000_0000))),
        !a.equals(a) ==> !a.equals(b),
        a.above_zero() <==> 0 < a.bits <= 0x7ff0_0000_0000_0000,
{
}

} // verus!
