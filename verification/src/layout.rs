//! Layout selection: one logical layout that stands for two alternative
//! arrangements and picks between them from the region it is asked to fill.

use crate::geometry::Rect;
use crate::transform::{Frame, BAR_HEIGHT_PX, INNER_PX, OUTER_PX};
use vstd::prelude::*;

verus! {

/// The widest region, in pixels, that the flexible layouts still fill with
/// their primary arrangement.
pub const FLEX_WIDTH_LIMIT: u32 = 1400;

/// A tiling algorithm that fills a region with the windows of a workspace.
/// The algorithms themselves belong to the window manager.
#[derive(Clone, Copy, Debug, PartialEq, Eq, Structural)]
pub enum Arrangement {
    /// A main area with the other windows stacked at its side.
    SideStack,
    /// A main area with the other windows stacked below it.
    BottomStack,
    /// A main area in the middle, the other windows left and right of it.
    CenteredVertical,
    /// A main area in the middle, the other windows above and below it.
    CenteredHorizontal,
    Tatami,
    Fibonacci,
    Grid,
    Monocle,
}

/// One of the two arrangements behind a selector.
#[derive(Clone, Copy, Debug, PartialEq, Eq, Structural)]
pub enum Alternative {
    Primary,
    Secondary,
}

/// The test on a region that decides for the primary arrangement.
#[derive(Clone, Copy, Debug, PartialEq, Eq, Structural)]
pub enum RegionPredicate {
    /// The region is at most this many pixels wide.
    WidthAtMost(u32),
    /// The region is at most this many pixels high.
    HeightAtMost(u32),
}

impl RegionPredicate {
    /// Whether the predicate holds of the region.
    pub open spec fn holds(self, region: Rect) -> bool {
        match self {
            RegionPredicate::WidthAtMost(limit) => region.w <= limit,
            RegionPredicate::HeightAtMost(limit) => region.h <= limit,
        }
    }

    /// The arrangement that the predicate picks for the region: the primary
    /// one where it holds, the secondary one where it does not.
    pub open spec fn picks(self, region: Rect) -> Alternative {
        if self.holds(region) {
            Alternative::Primary
        } else {
            Alternative::Secondary
        }
    }

    /// Evaluates the predicate on the region.
    pub fn test(&self, region: &Rect) -> (held: bool)
        ensures
            held == self.holds(*region),
    {
        match self {
            RegionPredicate::WidthAtMost(limit) => region.w <= *limit,
            RegionPredicate::HeightAtMost(limit) => region.h <= *limit,
        }
    }
}

/// A named pair of arrangements with the predicate that picks between them.
///
/// The choice is made afresh for every region; the selector remembers only
/// which arrangement filled the last region, so that a layout message can be
/// passed on to that arrangement.
#[derive(Clone, Debug)]
pub struct LayoutSelector {
    name: String,
    primary: Arrangement,
    secondary: Arrangement,
    predicate: RegionPredicate,
    active: Alternative,
}

impl LayoutSelector {
    /// The selector's name.
    pub closed spec fn name(self) -> Seq<char> {
        self.name@
    }

    /// The predicate that picks the arrangement.
    pub closed spec fn predicate(self) -> RegionPredicate {
        self.predicate
    }

    /// The arrangement that stands behind each alternative.
    pub closed spec fn arrangement(self, choice: Alternative) -> Arrangement {
        match choice {
            Alternative::Primary => self.primary,
            Alternative::Secondary => self.secondary,
        }
    }

    /// The arrangement that filled the last region.
    pub closed spec fn active(self) -> Alternative {
        self.active
    }

    /// A selector that has filled no region yet; until it does, messages go
    /// to the primary arrangement.
    pub fn new(
        name: &str,
        primary: Arrangement,
        secondary: Arrangement,
        predicate: RegionPredicate,
    ) -> (made: LayoutSelector)
        ensures
            made.name() == name@,
            made.arrangement(Alternative::Primary) == primary,
            made.arrangement(Alternative::Secondary) == secondary,
            made.predicate() == predicate,
            made.active() == Alternative::Primary,
    {
        LayoutSelector {
            name: name.to_owned(),
            primary,
            secondary,
            predicate,
            active: Alternative::Primary,
        }
    }

    /// The arrangement that stands behind the alternative.
    pub fn algorithm(&self, choice: Alternative) -> (algorithm: Arrangement)
        ensures
            algorithm == self.arrangement(choice),
    {
        match choice {
            Alternative::Primary => self.primary,
            Alternative::Secondary => self.secondary,
        }
    }

    /// The selector's name.
    pub fn label(&self) -> (text: &str)
        ensures
            text@ == self.name(),
    {
        self.name.as_str()
    }

    /// The arrangement for the region, from the region alone: primary where
    /// the predicate holds, secondary otherwise. An empty region is judged
    /// like any other.
    pub fn current(&self, region: &Rect) -> (choice: Alternative)
        ensures
            choice == self.predicate().picks(*region),
    {
        if self.predicate.test(region) {
            Alternative::Primary
        } else {
            Alternative::Secondary
        }
    }

    /// Picks the arrangement for the region, as [`LayoutSelector::current`]
    /// does, and remembers it as the one that receives messages.
    pub fn arrange(&mut self, region: &Rect) -> (choice: Alternative)
        ensures
            choice == old(self).predicate().picks(*region),
            final(self).active() == choice,
            final(self).predicate() == old(self).predicate(),
            final(self).name() == old(self).name(),
            forall|a: Alternative| final(self).arrangement(a) == old(self).arrangement(a),
    {
        let choice = self.current(region);
        self.active = choice;
        choice
    }

    /// The arrangement to which a layout message is passed on, unchanged:
    /// the one that filled the last region.
    pub fn message_target(&self) -> (target: Alternative)
        ensures
            target == self.active(),
    {
        self.active
    }
}

/// The selector between a side stack and a vertically centred main area;
/// regions up to [`FLEX_WIDTH_LIMIT`] pixels wide get the side stack.
pub fn flex_tall() -> (selector: LayoutSelector)
    ensures
        selector.name() == "FlexTall"@,
        selector.arrangement(Alternative::Primary) == Arrangement::SideStack,
        selector.arrangement(Alternative::Secondary) == Arrangement::CenteredVertical,
        selector.predicate() == RegionPredicate::WidthAtMost(FLEX_WIDTH_LIMIT),
        selector.active() == Alternative::Primary,
{
    LayoutSelector::new(
        "FlexTall",
        Arrangement::SideStack,
        Arrangement::CenteredVertical,
        RegionPredicate::WidthAtMost(FLEX_WIDTH_LIMIT),
    )
}

/// The selector between a bottom stack and a horizontally centred main
/// area; regions up to [`FLEX_WIDTH_LIMIT`] pixels wide get the bottom stack.
pub fn flex_wide() -> (selector: LayoutSelector)
    ensures
        selector.name() == "FlexWide"@,
        selector.arrangement(Alternative::Primary) == Arrangement::BottomStack,
        selector.arrangement(Alternative::Secondary) == Arrangement::CenteredHorizontal,
        selector.predicate() == RegionPredicate::WidthAtMost(FLEX_WIDTH_LIMIT),
        selector.active() == Alternative::Primary,
{
    LayoutSelector::new(
        "FlexWide",
        Arrangement::BottomStack,
        Arrangement::CenteredHorizontal,
        RegionPredicate::WidthAtMost(FLEX_WIDTH_LIMIT),
    )
}

/// What fills the region once the spacing is taken off.
#[derive(Debug)]
pub enum LayoutKind {
    /// One arrangement, whatever the region.
    Plain(Arrangement),
    /// One arrangement, mirrored left to right.
    Reflected(Arrangement),
    /// Two arrangements and the selector between them.
    Flexible(LayoutSelector),
}

/// One entry of the layout stack: what fills the region, and the spacing
/// around it.
#[derive(Debug)]
pub struct LayoutEntry {
    pub kind: LayoutKind,
    pub frame: Frame,
}

impl LayoutKind {
    /// Whether the entry is a selector with the given name, arrangements and
    /// width limit that has filled no region yet.
    pub open spec fn is_flexible(
        self,
        name: Seq<char>,
        primary: Arrangement,
        secondary: Arrangement,
        limit: u32,
    ) -> bool {
        &&& self matches LayoutKind::Flexible(selector)
        &&& selector.name() == name
        &&& selector.arrangement(Alternative::Primary) == primary
        &&& selector.arrangement(Alternative::Secondary) == secondary
        &&& selector.predicate() == RegionPredicate::WidthAtMost(limit)
        &&& selector.active() == Alternative::Primary
    }
}

/// The spacing that every layout of the stack gets.
pub open spec fn standard_frame() -> Frame {
    Frame { top_px: BAR_HEIGHT_PX, outer_px: OUTER_PX, inner_px: INNER_PX }
}

/// The layouts that a workspace cycles through, in order, each with the
/// same spacing: the two flexible layouts first, then the fixed ones.
pub fn layouts() -> (stack: Vec<LayoutEntry>)
    ensures
        stack.len() == 9,
        forall|i: int| 0 <= i < 9 ==> (#[trigger] stack[i]).frame == standard_frame(),
        stack[0].kind.is_flexible(
            "FlexTall"@,
            Arrangement::SideStack,
            Arrangement::CenteredVertical,
            FLEX_WIDTH_LIMIT,
        ),
        stack[1].kind.is_flexible(
            "FlexWide"@,
            Arrangement::BottomStack,
            Arrangement::CenteredHorizontal,
            FLEX_WIDTH_LIMIT,
        ),
        stack[2].kind == LayoutKind::Plain(Arrangement::SideStack),
        stack[3].kind == LayoutKind::Reflected(Arrangement::SideStack),
        stack[4].kind == LayoutKind::Plain(Arrangement::BottomStack),
        stack[5].kind == LayoutKind::Plain(Arrangement::Tatami),
        stack[6].kind == LayoutKind::Plain(Arrangement::Fibonacci),
        stack[7].kind == LayoutKind::Plain(Arrangement::Grid),
        stack[8].kind == LayoutKind::Plain(Arrangement::Monocle),
{
    let frame = Frame { top_px: BAR_HEIGHT_PX, outer_px: OUTER_PX, inner_px: INNER_PX };
    let mut stack: Vec<LayoutEntry> = Vec::new();
    stack.push(LayoutEntry { kind: LayoutKind::Flexible(flex_tall()), frame });
    stack.push(LayoutEntry { kind: LayoutKind::Flexible(flex_wide()), frame });
    stack.push(LayoutEntry { kind: LayoutKind::Plain(Arrangement::SideStack), frame });
    stack.push(LayoutEntry { kind: LayoutKind::Reflected(Arrangement::SideStack), frame });
    stack.push(LayoutEntry { kind: LayoutKind::Plain(Arrangement::BottomStack), frame });
    stack.push(LayoutEntry { kind: LayoutKind::Plain(Arrangement::Tatami), frame });
    stack.push(LayoutEntry { kind: LayoutKind::Plain(Arrangement::Fibonacci), frame });
    stack.push(LayoutEntry { kind: LayoutKind::Plain(Arrangement::Grid), frame });
    stack.push(LayoutEntry { kind: LayoutKind::Plain(Arrangement::Monocle), frame });
    stack
}

/// A width threshold splits all regions in two: those wider than the
/// threshold get the secondary arrangement, all others, the threshold itself
/// included, the primary one. The height plays no part.
pub proof fn lemma_width_threshold(limit: u32, region: Rect)
    ensures
        region.w > limit ==> RegionPredicate::WidthAtMost(limit).picks(region)
            == Alternative::Secondary,
        region.w <= limit ==> RegionPredicate::WidthAtMost(limit).picks(region)
            == Alternative::Primary,
{
}

} // verus!
