//! The geometry around a layout: a strip kept free at the top of the screen,
//! gaps around the screen and around each window, and the mirroring of an
//! arrangement.
//!
//! The strip is cut off first and the outer gap is taken from what is left,
//! so that the gap never reaches into the strip.

use crate::geometry::Rect;
use vstd::prelude::*;

verus! {

/// Pixels kept free at the top of every screen for the status bar.
pub const BAR_HEIGHT_PX: u32 = 18;

/// The gap, in pixels, between the windows and the edge of the screen.
pub const OUTER_PX: u32 = 5;

/// The gap, in pixels, around each window.
pub const INNER_PX: u32 = 5;

/// Whether a strip of `px` pixels can be cut off the top of `region`.
pub open spec fn strip_fits(region: Rect, px: u32) -> bool {
    region.is_empty() || (px <= region.h && region.y + px <= u32::MAX)
}

/// What is left of `region` below a strip of `px` pixels at its top. An
/// empty region is left as it is.
pub open spec fn below_strip(region: Rect, px: u32) -> Rect {
    if region.is_empty() {
        region
    } else {
        Rect { x: region.x, y: (region.y + px) as u32, w: region.w, h: (region.h - px) as u32 }
    }
}

/// Whether a gap of `px` pixels can be taken off every side of `region`.
pub open spec fn gap_fits(region: Rect, px: u32) -> bool {
    region.is_empty() || (2 * px <= region.w && 2 * px <= region.h && region.x + px <= u32::MAX
        && region.y + px <= u32::MAX)
}

/// What is left of `region` inside a gap of `px` pixels on every side. An
/// empty region is left as it is.
pub open spec fn inset(region: Rect, px: u32) -> Rect {
    if region.is_empty() {
        region
    } else {
        Rect {
            x: (region.x + px) as u32,
            y: (region.y + px) as u32,
            w: (region.w - 2 * px) as u32,
            h: (region.h - 2 * px) as u32,
        }
    }
}

/// The window position `at` with the gap taken off where the gap fits, and
/// as it is where the window is too small for the gap.
pub open spec fn gapped(at: Rect, px: u32) -> Rect {
    if gap_fits(at, px) {
        inset(at, px)
    } else {
        at
    }
}

/// Calls `ReserveTop::transform_initial` of penrose, which hands back an
/// empty region as it is, and else moves the top edge of the region down
/// by `px` pixels and shortens the region by as much.
#[verifier::external_body]
fn reserve_top(region: Rect, px: u32) -> (rest: Rect)
    requires
        strip_fits(region, px),
    ensures
        rest == below_strip(region, px),
{
    let strip = penrose::builtin::layout::transformers::ReserveTop {
        layout: penrose::builtin::layout::Monocle::boxed(),
        px,
    };
    let given = penrose::pure::geometry::Rect::new(region.x, region.y, region.w, region.h);
    let r = penrose::core::layout::LayoutTransformer::transform_initial(&strip, given);
    Rect { x: r.x, y: r.y, w: r.w, h: r.h }
}

/// Calls `Gaps::transform_initial` of penrose, which hands back an empty
/// region as it is, and else moves every side of the region inwards by the
/// outer gap, here `px` pixels.
#[verifier::external_body]
fn shrink(region: Rect, px: u32) -> (rest: Rect)
    requires
        gap_fits(region, px),
    ensures
        rest == inset(region, px),
{
    let gaps = penrose::builtin::layout::transformers::Gaps {
        layout: penrose::builtin::layout::Monocle::boxed(),
        outer_px: px,
        inner_px: px,
    };
    let given = penrose::pure::geometry::Rect::new(region.x, region.y, region.w, region.h);
    let r = penrose::core::layout::LayoutTransformer::transform_initial(&gaps, given);
    Rect { x: r.x, y: r.y, w: r.w, h: r.h }
}

/// Runtime test of [`strip_fits`].
pub fn check_strip_fits(region: &Rect, px: u32) -> (ok: bool)
    ensures
        ok == strip_fits(*region, px),
{
    region.w == 0 || region.h == 0 || (px <= region.h && px <= u32::MAX - region.y)
}

/// Runtime test of [`gap_fits`].
pub fn check_gap_fits(region: &Rect, px: u32) -> (ok: bool)
    ensures
        ok == gap_fits(*region, px),
{
    region.w == 0 || region.h == 0 || (px <= region.w / 2 && px <= region.h / 2 && px <= u32::MAX
        - region.x && px <= u32::MAX - region.y)
}

/// The spacing around a layout: the strip at the top and the two gaps.
#[derive(Clone, Copy, Debug, PartialEq, Eq, Structural)]
pub struct Frame {
    /// Pixels kept free at the top of the screen.
    pub top_px: u32,
    /// The gap between the windows and the edge of what is left.
    pub outer_px: u32,
    /// The gap around each window.
    pub inner_px: u32,
}

impl Frame {
    /// Whether the strip and the outer gap both fit into `screen`.
    pub open spec fn fits(self, screen: Rect) -> bool {
        strip_fits(screen, self.top_px) && gap_fits(below_strip(screen, self.top_px), self.outer_px)
    }

    /// The region that is left for the windows: `screen` without the strip,
    /// and that without the outer gap.
    pub open spec fn region(self, screen: Rect) -> Rect {
        inset(below_strip(screen, self.top_px), self.outer_px)
    }

    /// The region that the wrapped layout is asked to fill: the strip is cut
    /// off the top of `screen`, then the outer gap is taken off what is
    /// left. `None` is returned when the strip or the gap does not fit.
    pub fn inner_region(&self, screen: Rect) -> (inner: Option<Rect>)
        ensures
            inner is Some <==> self.fits(screen),
            inner matches Some(r) ==> r == self.region(screen),
    {
        if !check_strip_fits(&screen, self.top_px) {
            return None;
        }
        let rest = reserve_top(screen, self.top_px);
        if !check_gap_fits(&rest, self.outer_px) {
            return None;
        }
        Some(shrink(rest, self.outer_px))
    }

    /// The region that the wrapped layout is asked to fill, for every
    /// screen: what [`Frame::inner_region`] gives, and the whole screen
    /// where the strip or the gap does not fit.
    pub fn layout_region(&self, screen: Rect) -> (inner: Rect)
        ensures
            inner == if self.fits(screen) {
                self.region(screen)
            } else {
                screen
            },
    {
        match self.inner_region(screen) {
            Some(inner) => inner,
            None => screen,
        }
    }

    /// Where the windows go, from the positions that the wrapped layout
    /// handed out for `region`: the positions are mirrored if `reflect` is
    /// set and the mirror image fits, and then the inner gap is taken off
    /// each of them. Every window keeps its place in the list.
    pub fn place(&self, region: Rect, positions: Vec<(u32, Rect)>, reflect: bool) -> (placed: Vec<
        (u32, Rect),
    >)
        ensures
            placed.len() == positions.len(),
            forall|i: int|
                0 <= i < positions.len() ==> (#[trigger] placed[i]).0 == positions[i].0
                    && placed[i].1 == gapped(
                    if reflect && mirror_fits(region, positions@) {
                        mirrored(region, positions[i].1)
                    } else {
                        positions[i].1
                    },
                    self.inner_px,
                ),
    {
        if reflect {
            match reflect_horizontal(region, &positions) {
                Some(turned) => self.finish(turned),
                None => self.finish(positions),
            }
        } else {
            self.finish(positions)
        }
    }

    /// Takes the inner gap off every position that a layout handed out.
    /// Each window keeps its place in the list; a window too small for the
    /// gap keeps its position.
    pub fn finish(&self, positions: Vec<(u32, Rect)>) -> (spaced: Vec<(u32, Rect)>)
        ensures
            spaced.len() == positions.len(),
            forall|i: int|
                0 <= i < positions.len() ==> (#[trigger] spaced[i]).0 == positions[i].0
                    && spaced[i].1 == gapped(positions[i].1, self.inner_px),
    {
        let mut spaced: Vec<(u32, Rect)> = Vec::new();
        let mut i: usize = 0;
        while i < positions.len()
            invariant
                i <= positions.len(),
                spaced.len() == i,
                forall|j: int|
                    0 <= j < i ==> (#[trigger] spaced[j]).0 == positions[j].0 && spaced[j].1
                        == gapped(positions[j].1, self.inner_px),
            decreases positions.len() - i,
        {
            let (client, at) = positions[i];
            let next = if check_gap_fits(&at, self.inner_px) {
                shrink(at, self.inner_px)
            } else {
                at
            };
            spaced.push((client, next));
            i += 1;
        }
        spaced
    }
}

/// The x coordinate of `at` mirrored at the vertical middle line of
/// `region`; coordinates left of zero are taken as zero.
pub open spec fn mirrored_x(region: Rect, at: Rect) -> int {
    let axis = (region.x + region.w / 2) * 2;
    if axis - at.x - at.w < 0 {
        0
    } else {
        axis - at.x - at.w
    }
}

/// The position `at` mirrored at the vertical middle line of `region`: the
/// x coordinate changes, the rest does not.
pub open spec fn mirrored(region: Rect, at: Rect) -> Rect {
    Rect { x: mirrored_x(region, at) as u32, y: at.y, w: at.w, h: at.h }
}

/// Whether every position, mirrored at the vertical middle line of
/// `region`, still has a pixel coordinate.
pub open spec fn mirror_fits(region: Rect, positions: Seq<(u32, Rect)>) -> bool {
    forall|i: int|
        0 <= i < positions.len() ==> mirrored_x(region, (#[trigger] positions[i]).1) <= u32::MAX
}

/// Mirrors the positions that a layout handed out at the vertical middle
/// line of `region`. Every window keeps its place in the list and its size;
/// only its x coordinate changes. `None` is returned when a mirrored
/// coordinate is no pixel coordinate.
pub fn reflect_horizontal(region: Rect, positions: &Vec<(u32, Rect)>) -> (reflected: Option<
    Vec<(u32, Rect)>,
>)
    ensures
        reflected is Some <==> mirror_fits(region, positions@),
        reflected matches Some(out) ==> out.len() == positions.len() && forall|i: int|
            0 <= i < positions.len() ==> (#[trigger] out[i]).0 == positions[i].0 && out[i].1
                == mirrored(region, positions[i].1),
{
    let axis: u64 = (region.x as u64 + (region.w / 2) as u64) * 2;
    let mut out: Vec<(u32, Rect)> = Vec::new();
    let mut i: usize = 0;
    while i < positions.len()
        invariant
            i <= positions.len(),
            out.len() == i,
            axis == (region.x + region.w / 2) * 2,
            forall|j: int|
                0 <= j < i ==> mirrored_x(region, (#[trigger] positions[j]).1) <= u32::MAX,
            forall|j: int|
                0 <= j < i ==> (#[trigger] out[j]).0 == positions[j].0 && out[j].1 == mirrored(
                    region,
                    positions[j].1,
                ),
        decreases positions.len() - i,
    {
        let (client, at) = positions[i];
        let taken: u64 = at.x as u64 + at.w as u64;
        let x: u64 = if taken > axis {
            0
        } else {
            axis - taken
        };
        if x > u32::MAX as u64 {
            assert(mirrored_x(region, positions[i as int].1) > u32::MAX);
            return None;
        }
        out.push((client, Rect { x: x as u32, y: at.y, w: at.w, h: at.h }));
        i += 1;
    }
    Some(out)
}

/// The region that is left for the windows lies inside the screen and
/// wholly below the strip: the outer gap is taken from what the strip left,
/// never from the strip.
pub proof fn lemma_gap_spares_strip(frame: Frame, screen: Rect)
    requires
        !screen.is_empty(),
        frame.fits(screen),
    ensures
        screen.encloses(frame.region(screen)),
        frame.region(screen).y >= screen.y + frame.top_px,
        below_strip(screen, frame.top_px).encloses(frame.region(screen)),
{
}

/// Mirroring changes neither the size of a window nor its y coordinate, and
/// a window that lies inside the region is mirrored to where it was as far
/// from the right edge as it now is from the left one, up to the one pixel
/// by which the middle line of a region of odd width is off.
pub proof fn lemma_mirror_keeps_shape(region: Rect, at: Rect)
    requires
        region.encloses(at),
    ensures
        mirrored(region, at).y == at.y,
        mirrored(region, at).w == at.w,
        mirrored(region, at).h == at.h,
        region.w % 2 == 0 ==> mirrored_x(region, at) - region.x == (region.x + region.w) - (at.x
            + at.w),
        region.w % 2 == 1 && at.x + at.w < region.x + region.w ==> mirrored_x(region, at)
            - region.x == (region.x + region.w) - (at.x + at.w) - 1,
{
}

} // verus!
