//! Screen regions in whole pixels, and the fractions that size a floating
//! window against its screen.

use crate::error::ConfigError;
use vstd::prelude::*;

verus! {

/// A screen region: top left corner and extent, in pixels.
#[derive(Clone, Copy, Debug, PartialEq, Eq, Structural)]
pub struct Rect {
    pub x: u32,
    pub y: u32,
    pub w: u32,
    pub h: u32,
}

impl Rect {
    /// The region with the given corner and extent.
    pub fn new(x: u32, y: u32, w: u32, h: u32) -> (r: Rect)
        ensures
            r == (Rect { x, y, w, h }),
    {
        Rect { x, y, w, h }
    }

    /// Whether the region covers no pixel.
    pub open spec fn is_empty(self) -> bool {
        self.w == 0 || self.h == 0
    }

    /// Whether the far corner of the region is still a pixel coordinate.
    pub open spec fn in_bounds(self) -> bool {
        self.x + self.w <= u32::MAX && self.y + self.h <= u32::MAX
    }

    /// Whether `inner` lies wholly inside this region.
    pub open spec fn encloses(self, inner: Rect) -> bool {
        &&& self.x <= inner.x
        &&& self.y <= inner.y
        &&& inner.x + inner.w <= self.x + self.w
        &&& inner.y + inner.h <= self.y + self.h
    }

    /// Runtime test of [`Rect::in_bounds`].
    pub fn check_in_bounds(&self) -> (ok: bool)
        ensures
            ok == self.in_bounds(),
    {
        self.w <= u32::MAX - self.x && self.h <= u32::MAX - self.y
    }
}

/// A fraction of a screen side, greater than zero and at most one.
#[derive(Clone, Copy, Debug, PartialEq, Eq, Structural)]
pub struct Ratio {
    num: u32,
    den: u32,
}

impl Ratio {
    #[verifier::type_invariant]
    spec fn in_range(self) -> bool {
        0 < self.num <= self.den
    }

    /// The numerator.
    pub closed spec fn numerator(self) -> int {
        self.num as int
    }

    /// The denominator.
    pub closed spec fn denominator(self) -> int {
        self.den as int
    }

    /// Whether the ratio lies in (0, 1]. Every ratio that [`Ratio::new`]
    /// hands out does.
    pub open spec fn wf(self) -> bool {
        0 < self.numerator() <= self.denominator() <= u32::MAX
    }

    /// The length left of `len` pixels after scaling, rounded down.
    pub open spec fn scale(self, len: int) -> int {
        (len * self.numerator()) / self.denominator()
    }

    /// Builds the fraction `num / den`, rejecting any value outside (0, 1].
    pub fn new(num: u32, den: u32) -> (made: Result<Ratio, ConfigError>)
        ensures
            (0 < num <= den) <==> made is Ok,
            made matches Ok(r) ==> r.wf() && r.numerator() == num && r.denominator() == den,
            made matches Err(e) ==> e == ConfigError::FractionOutOfRange,
    {
        if num == 0 || num > den {
            Err(ConfigError::FractionOutOfRange)
        } else {
            Ok(Ratio { num, den })
        }
    }

    /// The numerator and denominator that the ratio was built from.
    pub fn parts(&self) -> (p: (u32, u32))
        ensures
            p.0 == self.numerator(),
            p.1 == self.denominator(),
            self.wf(),
    {
        proof {
            use_type_invariant(self);
        }
        (self.num, self.den)
    }

    /// Scales a side of `len` pixels by this ratio, rounding down.
    pub fn apply(&self, len: u32) -> (scaled: u32)
        ensures
            self.wf(),
            scaled == self.scale(len as int),
            scaled <= len,
            self.numerator() == self.denominator() ==> scaled == len,
    {
        proof {
            use_type_invariant(self);
            assert(len * self.num <= u32::MAX * u32::MAX) by (nonlinear_arith)
                requires
                    0 <= len <= u32::MAX,
                    0 <= self.num <= u32::MAX,
            ;
            lemma_scale_bounds(len as int, self.num as int, self.den as int);
        }
        let wide: u64 = (len as u64) * (self.num as u64);
        let q: u64 = wide / (self.den as u64);
        q as u32
    }
}

/// The corner at which a window of `w` by `h` pixels sits centred in
/// `screen`, rounded towards the top left.
pub open spec fn centred_corner(screen: Rect, w: int, h: int) -> (int, int) {
    (screen.x + (screen.w - w) / 2, screen.y + (screen.h - h) / 2)
}

/// The floating placement on `screen` of a window that takes the given
/// fractions of its width and height: scaled, then centred.
pub open spec fn placement(screen: Rect, width: Ratio, height: Ratio) -> Rect {
    let w = width.scale(screen.w as int);
    let h = height.scale(screen.h as int);
    let corner = centred_corner(screen, w, h);
    Rect { x: corner.0 as u32, y: corner.1 as u32, w: w as u32, h: h as u32 }
}

/// Whether the corner of the placement is a pixel coordinate.
pub open spec fn placement_fits(screen: Rect, width: Ratio, height: Ratio) -> bool {
    let corner = centred_corner(
        screen,
        width.scale(screen.w as int),
        height.scale(screen.h as int),
    );
    corner.0 <= u32::MAX && corner.1 <= u32::MAX
}

/// `inner` moved so that it sits centred in `enclosing`, or `None` when it
/// is wider or higher than `enclosing`.
pub open spec fn centred(inner: Rect, enclosing: Rect) -> Option<Rect> {
    if inner.w <= enclosing.w && inner.h <= enclosing.h {
        let corner = centred_corner(enclosing, inner.w as int, inner.h as int);
        Some(Rect { x: corner.0 as u32, y: corner.1 as u32, w: inner.w, h: inner.h })
    } else {
        None
    }
}

/// Whether `inner` can be centred in `enclosing` without a coordinate
/// leaving the range of pixel coordinates.
pub open spec fn centring_fits(inner: Rect, enclosing: Rect) -> bool {
    let corner = centred_corner(enclosing, inner.w as int, inner.h as int);
    inner.w <= enclosing.w && inner.h <= enclosing.h ==> corner.0 <= u32::MAX && corner.1
        <= u32::MAX
}

/// Calls `Rect::centered_in` of penrose, which gives `None` when `inner` is
/// wider or higher than `enclosing`, and else `inner` moved so that it sits
/// centred in `enclosing`, rounded towards the top left.
#[verifier::external_body]
fn centered_in(inner: Rect, enclosing: Rect) -> (placed: Option<Rect>)
    requires
        centring_fits(inner, enclosing),
    ensures
        placed == centred(inner, enclosing),
{
    let inner = penrose::pure::geometry::Rect::new(inner.x, inner.y, inner.w, inner.h);
    let enclosing = penrose::pure::geometry::Rect::new(
        enclosing.x,
        enclosing.y,
        enclosing.w,
        enclosing.h,
    );
    inner.centered_in(&enclosing).map(|r| Rect { x: r.x, y: r.y, w: r.w, h: r.h })
}

/// Where a floating window goes on `screen`: it takes the given fractions of
/// the screen's width and height and sits centred. `None` is returned when
/// the screen lies so far out that the window's corner is no pixel
/// coordinate; a screen that is [`Rect::in_bounds`] always has a placement.
pub fn floating_placement(screen: Rect, width: Ratio, height: Ratio) -> (placed: Option<Rect>)
    ensures
        placed is Some <==> placement_fits(screen, width, height),
        placed matches Some(r) ==> r == placement(screen, width, height) && screen.encloses(r),
        screen.in_bounds() ==> placed is Some,
{
    let w = width.apply(screen.w);
    let h = height.apply(screen.h);
    let half_w = (screen.w - w) / 2;
    let half_h = (screen.h - h) / 2;
    if half_w > u32::MAX - screen.x || half_h > u32::MAX - screen.y {
        return None;
    }
    let sized = Rect { x: screen.x, y: screen.y, w, h };
    centered_in(sized, screen)
}

/// Scaling by a fraction of at most one never lengthens a side.
pub proof fn lemma_scale_bounds(len: int, num: int, den: int)
    requires
        0 <= len,
        0 < num <= den,
    ensures
        0 <= (len * num) / den <= len,
        num == den ==> (len * num) / den == len,
{
    assert(0 <= len * num <= len * den) by (nonlinear_arith)
        requires
            0 <= len,
            0 < num <= den,
    ;
    assert((len * num) / den <= len) by (nonlinear_arith)
        requires
            0 <= len * num <= len * den,
            0 < den,
    ;
    assert(0 <= (len * num) / den) by (nonlinear_arith)
        requires
            0 <= len * num,
            0 < den,
    ;
    if num == den {
        assert((len * den) / den == len) by (nonlinear_arith)
            requires
                0 < den,
        ;
    }
}

} // verus!
