//! Screen edge detection for cursor transitions.
//!
//! When the cursor reaches a linked edge of a display, the detector names
//! the link and where the cursor enters the target display: the coordinate
//! across the edge exactly, and the coordinate along it as the offset and
//! the two lengths that scale it. The proportional scaling itself is a
//! floating-point computation and is done by the program around this crate.
use vstd::prelude::*;
use crate::types::{DisplayInfo, ScreenEdge, ScreenLink};

verus! {

/// The index of the first display with the given id.
pub open spec fn first_display(ds: Seq<DisplayInfo>, id: u32) -> Option<int>
    decreases ds.len(),
{
    if ds.len() == 0 {
        None
    } else {
        match first_display(ds.drop_last(), id) {
            Some(i) => Some(i),
            None => if ds.last().id == id { Some(ds.len() - 1) } else { None },
        }
    }
}

/// The index of the first link from the given edge of the given display.
pub open spec fn first_link(ls: Seq<ScreenLink>, display_id: u32, edge: ScreenEdge) -> Option<int>
    decreases ls.len(),
{
    if ls.len() == 0 {
        None
    } else {
        match first_link(ls.drop_last(), display_id, edge) {
            Some(i) => Some(i),
            None => if ls.last().source_display == display_id && ls.last().source_edge == edge {
                Some(ls.len() - 1)
            } else {
                None
            },
        }
    }
}

proof fn lemma_first_display_extend(ds: Seq<DisplayInfo>, id: u32, n: int)
    requires
        0 <= n <= ds.len(),
        first_display(ds.subrange(0, n), id) is Some,
    ensures
        first_display(ds, id) == first_display(ds.subrange(0, n), id),
    decreases ds.len() - n,
{
    if n < ds.len() {
        assert(ds.subrange(0, n + 1).drop_last() =~= ds.subrange(0, n));
        lemma_first_display_extend(ds, id, n + 1);
    } else {
        assert(ds.subrange(0, n) =~= ds);
    }
}

proof fn lemma_first_link_extend(ls: Seq<ScreenLink>, display_id: u32, edge: ScreenEdge, n: int)
    requires
        0 <= n <= ls.len(),
        first_link(ls.subrange(0, n), display_id, edge) is Some,
    ensures
        first_link(ls, display_id, edge) == first_link(ls.subrange(0, n), display_id, edge),
    decreases ls.len() - n,
{
    if n < ls.len() {
        assert(ls.subrange(0, n + 1).drop_last() =~= ls.subrange(0, n));
        lemma_first_link_extend(ls, display_id, edge, n + 1);
    } else {
        assert(ls.subrange(0, n) =~= ls);
    }
}

proof fn lemma_first_display_in_range(ds: Seq<DisplayInfo>, id: u32)
    ensures
        first_display(ds, id) matches Some(i) ==> 0 <= i < ds.len() && ds[i].id == id,
    decreases ds.len(),
{
    if ds.len() > 0 {
        lemma_first_display_in_range(ds.drop_last(), id);
    }
}

fn find_display(ds: &Vec<DisplayInfo>, id: u32) -> (r: Option<usize>)
    ensures
        r matches Some(i) ==> first_display(ds@, id) == Some(i as int),
        r is None ==> first_display(ds@, id) is None,
{
    let mut i: usize = 0;
    while i < ds.len()
        invariant
            0 <= i <= ds@.len(),
            first_display(ds@.subrange(0, i as int), id) is None,
        decreases ds@.len() - i,
    {
        assert(ds@.subrange(0, i as int + 1).drop_last() =~= ds@.subrange(0, i as int));
        if ds[i].id == id {
            proof {
                lemma_first_display_extend(ds@, id, i as int + 1);
            }
            return Some(i);
        }
        i = i + 1;
    }
    assert(ds@.subrange(0, i as int) =~= ds@);
    None
}

fn find_link(ls: &Vec<ScreenLink>, display_id: u32, edge: ScreenEdge) -> (r: Option<usize>)
    ensures
        r matches Some(i) ==> first_link(ls@, display_id, edge) == Some(i as int) && i < ls@.len(),
        r is None ==> first_link(ls@, display_id, edge) is None,
{
    let mut i: usize = 0;
    while i < ls.len()
        invariant
            0 <= i <= ls@.len(),
            first_link(ls@.subrange(0, i as int), display_id, edge) is None,
        decreases ls@.len() - i,
    {
        assert(ls@.subrange(0, i as int + 1).drop_last() =~= ls@.subrange(0, i as int));
        if ls[i].source_display == display_id && ls[i].source_edge == edge {
            proof {
                lemma_first_link_extend(ls@, display_id, edge, i as int + 1);
            }
            return Some(i);
        }
        i = i + 1;
    }
    assert(ls@.subrange(0, i as int) =~= ls@);
    None
}

/// The edge of the display that the cursor is on, if any: left, right,
/// top, bottom, in that order, each within the dead zone of its border.
pub open spec fn edge_at(d: DisplayInfo, dz: i32, x: i32, y: i32) -> Option<ScreenEdge> {
    if x <= d.x + dz {
        Some(ScreenEdge::Left)
    } else if x >= d.x + (d.width as i32) - dz {
        Some(ScreenEdge::Right)
    } else if y <= d.y + dz {
        Some(ScreenEdge::Top)
    } else if y >= d.y + (d.height as i32) - dz {
        Some(ScreenEdge::Bottom)
    } else {
        None
    }
}

/// Where the cursor enters the target display. `fixed` is the coordinate
/// across the edge (x for left and right, y for top and bottom): the far
/// border when leaving by the left or top, the near border otherwise. The
/// coordinate along the edge is `target_origin + offset / source_length *
/// target_length`, computed by the caller in floating point.
#[derive(Debug, Clone, Copy, PartialEq, Eq, Structural)]
pub struct EdgeMapping {
    pub edge: ScreenEdge,
    pub fixed: i64,
    pub offset: i64,
    pub source_length: u32,
    pub target_origin: i32,
    pub target_length: u32,
}

/// The mapping of a cursor position at an edge from a source display to a
/// target display.
pub open spec fn edge_mapping(source: DisplayInfo, target: DisplayInfo, edge: ScreenEdge, x: i32, y: i32) -> EdgeMapping {
    match edge {
        ScreenEdge::Left | ScreenEdge::Right => EdgeMapping {
            edge,
            fixed: (if edge == ScreenEdge::Left { target.x + (target.width as i32) - 1 } else { target.x as int }) as i64,
            offset: (y - source.y) as i64,
            source_length: source.height,
            target_origin: target.y,
            target_length: target.height,
        },
        ScreenEdge::Top | ScreenEdge::Bottom => EdgeMapping {
            edge,
            fixed: (if edge == ScreenEdge::Top { target.y + (target.height as i32) - 1 } else { target.y as int }) as i64,
            offset: (x - source.x) as i64,
            source_length: source.width,
            target_origin: target.x,
            target_length: target.width,
        },
    }
}

/// Result of edge detection check.
#[derive(Debug, Clone, Copy, PartialEq, Eq, Structural)]
pub enum EdgeCheckResult {
    /// Cursor is within screen bounds, no transition.
    WithinBounds,
    /// Cursor has hit a linked edge and should transition.
    Transition { link: ScreenLink, mapping: EdgeMapping },
    /// Cursor hit an edge with no link configured.
    UnlinkedEdge(ScreenEdge),
}

/// The outcome of an edge check: nothing for an unknown display or a
/// position away from the edges; the first link of the edge with the
/// mapping onto its target display (or onto the source display when the
/// target is not known); else the unlinked edge.
pub open spec fn edge_check(ds: Seq<DisplayInfo>, ls: Seq<ScreenLink>, dead_zone: u32, display_id: u32, x: i32, y: i32) -> EdgeCheckResult {
    match first_display(ds, display_id) {
        None => EdgeCheckResult::WithinBounds,
        Some(si) => {
            let source = ds[si];
            match edge_at(source, dead_zone as i32, x, y) {
                None => EdgeCheckResult::WithinBounds,
                Some(edge) => match first_link(ls, display_id, edge) {
                    None => EdgeCheckResult::UnlinkedEdge(edge),
                    Some(li) => {
                        let link = ls[li];
                        let target = match first_display(ds, link.target_display) {
                            Some(ti) => ds[ti],
                            None => source,
                        };
                        EdgeCheckResult::Transition { link, mapping: edge_mapping(source, target, edge, x, y) }
                    },
                },
            }
        },
    }
}

/// Detects when the cursor has hit a screen edge and should transition.
pub struct EdgeDetector {
    displays: Vec<DisplayInfo>,
    links: Vec<ScreenLink>,
    dead_zone: u32,
}

impl EdgeDetector {
    /// A detector over the given displays and links, with a dead zone in
    /// pixels.
    pub fn new(displays: Vec<DisplayInfo>, links: Vec<ScreenLink>, dead_zone: u32) -> (e: Self)
        ensures
            e.displays() == displays@,
            e.links() == links@,
            e.dead_zone() == dead_zone,
    {
        EdgeDetector { displays, links, dead_zone }
    }

    /// The displays.
    pub closed spec fn displays(&self) -> Seq<DisplayInfo> {
        self.displays@
    }

    /// The links.
    pub closed spec fn links(&self) -> Seq<ScreenLink> {
        self.links@
    }

    /// The dead zone.
    pub closed spec fn dead_zone(&self) -> u32 {
        self.dead_zone
    }

    fn mapping(source: &DisplayInfo, target: &DisplayInfo, edge: ScreenEdge, x: i32, y: i32) -> (m: EdgeMapping)
        ensures
            m == edge_mapping(*source, *target, edge, x, y),
    {
        match edge {
            ScreenEdge::Left | ScreenEdge::Right => {
                let fixed: i64 = if edge == ScreenEdge::Left {
                    target.x as i64 + (target.width as i32) as i64 - 1
                } else {
                    target.x as i64
                };
                EdgeMapping {
                    edge,
                    fixed,
                    offset: y as i64 - source.y as i64,
                    source_length: source.height,
                    target_origin: target.y,
                    target_length: target.height,
                }
            },
            ScreenEdge::Top | ScreenEdge::Bottom => {
                let fixed: i64 = if edge == ScreenEdge::Top {
                    target.y as i64 + (target.height as i32) as i64 - 1
                } else {
                    target.y as i64
                };
                EdgeMapping {
                    edge,
                    fixed,
                    offset: x as i64 - source.x as i64,
                    source_length: source.width,
                    target_origin: target.x,
                    target_length: target.width,
                }
            },
        }
    }

    /// Check if a cursor position on a display triggers an edge transition.
    pub fn check(&self, display_id: u32, x: i32, y: i32) -> (r: EdgeCheckResult)
        ensures
            r == edge_check(self.displays(), self.links(), self.dead_zone(), display_id, x, y),
    {
        proof {
            lemma_first_display_in_range(self.displays@, display_id);
        }
        let si = match find_display(&self.displays, display_id) {
            Some(i) => i,
            None => return EdgeCheckResult::WithinBounds,
        };
        let display = &self.displays[si];
        let dz = self.dead_zone as i32;
        let x64 = x as i64;
        let y64 = y as i64;
        let edge = if x64 <= display.x as i64 + dz as i64 {
            ScreenEdge::Left
        } else if x64 >= display.x as i64 + (display.width as i32) as i64 - dz as i64 {
            ScreenEdge::Right
        } else if y64 <= display.y as i64 + dz as i64 {
            ScreenEdge::Top
        } else if y64 >= display.y as i64 + (display.height as i32) as i64 - dz as i64 {
            ScreenEdge::Bottom
        } else {
            return EdgeCheckResult::WithinBounds;
        };
        match find_link(&self.links, display_id, edge) {
            None => EdgeCheckResult::UnlinkedEdge(edge),
            Some(li) => {
                let link = self.links[li];
                proof {
                    lemma_first_display_in_range(self.displays@, link.target_display);
                }
                let mapping = match find_display(&self.displays, link.target_display) {
                    Some(ti) => Self::mapping(display, &self.displays[ti], edge, x, y),
                    None => Self::mapping(display, display, edge, x, y),
                };
                EdgeCheckResult::Transition { link, mapping }
            },
        }
    }

    /// Replaces the displays.
    pub fn update_displays(&mut self, displays: Vec<DisplayInfo>)
        ensures
            final(self).displays() == displays@,
            final(self).links() == old(self).links(),
            final(self).dead_zone() == old(self).dead_zone(),
    {
        self.displays = displays;
    }

    /// Replaces the links.
    pub fn update_links(&mut self, links: Vec<ScreenLink>)
        ensures
            final(self).links() == links@,
            final(self).displays() == old(self).displays(),
            final(self).dead_zone() == old(self).dead_zone(),
    {
        self.links = links;
    }
}

/// Edge law: a cursor strictly inside a display, farther than the dead
/// zone from every border, never transitions; and a transition always goes
/// through a link of the display and edge it was found on.
pub proof fn law_edge_interior(ds: Seq<DisplayInfo>, ls: Seq<ScreenLink>, dead_zone: u32, display_id: u32, x: i32, y: i32)
    ensures
        (first_display(ds, display_id) matches Some(si) && edge_at(ds[si], dead_zone as i32, x, y) is None)
            ==> edge_check(ds, ls, dead_zone, display_id, x, y) == EdgeCheckResult::WithinBounds,
        edge_check(ds, ls, dead_zone, display_id, x, y) matches EdgeCheckResult::Transition { link, mapping }
            ==> link.source_display == display_id && link.source_edge == mapping.edge,
{
    lemma_first_link_found(ls, display_id);
    if first_display(ds, display_id) is Some {
        let si = first_display(ds, display_id)->0;
        if let Some(edge) = edge_at(ds[si], dead_zone as i32, x, y) {
            assert(link_found_at(ls, display_id, edge));
        }
    }
}

/// Entry law: a transition puts the cursor on the border row or column of
/// the target display that faces the edge it left by. Leaving by the top
/// enters on the target's bottom row, by the bottom on its top row, by the
/// left on its rightmost column, by the right on its leftmost column; the
/// coordinate along the edge is measured from the source display's origin
/// and rescaled onto the target's extent. The target is the display the
/// link names (the source display itself when no such display is known).
pub proof fn law_edge_entry(ds: Seq<DisplayInfo>, ls: Seq<ScreenLink>, dead_zone: u32, display_id: u32, x: i32, y: i32)
    ensures
        edge_check(ds, ls, dead_zone, display_id, x, y) matches EdgeCheckResult::Transition { link, mapping } ==> {
            let source = ds[first_display(ds, display_id)->0];
            let target = match first_display(ds, link.target_display) {
                Some(ti) => ds[ti],
                None => source,
            };
            &&& first_display(ds, display_id) is Some
            &&& mapping.edge == ScreenEdge::Top ==> mapping.fixed == target.y + (target.height as i32) - 1
            &&& mapping.edge == ScreenEdge::Bottom ==> mapping.fixed == target.y
            &&& mapping.edge == ScreenEdge::Left ==> mapping.fixed == target.x + (target.width as i32) - 1
            &&& mapping.edge == ScreenEdge::Right ==> mapping.fixed == target.x
            &&& (mapping.edge == ScreenEdge::Top || mapping.edge == ScreenEdge::Bottom) ==> {
                &&& mapping.offset == x - source.x
                &&& mapping.source_length == source.width
                &&& mapping.target_origin == target.x
                &&& mapping.target_length == target.width
            }
            &&& (mapping.edge == ScreenEdge::Left || mapping.edge == ScreenEdge::Right) ==> {
                &&& mapping.offset == y - source.y
                &&& mapping.source_length == source.height
                &&& mapping.target_origin == target.y
                &&& mapping.target_length == target.height
            }
            &&& (mapping.edge == ScreenEdge::Top && 0 < target.height <= i32::MAX)
                ==> target.y <= mapping.fixed < target.y + target.height
        },
{
}

/// Where the first link of an edge is found, and that it leaves from that
/// edge of that display.
pub open spec fn link_found_at(ls: Seq<ScreenLink>, display_id: u32, edge: ScreenEdge) -> bool {
    first_link(ls, display_id, edge) is Some ==> {
        let i = first_link(ls, display_id, edge)->0;
        0 <= i < ls.len() && ls[i].source_display == display_id && ls[i].source_edge == edge
    }
}

proof fn lemma_first_link_found(ls: Seq<ScreenLink>, display_id: u32)
    ensures
        forall|edge: ScreenEdge| #[trigger] link_found_at(ls, display_id, edge),
    decreases ls.len(),
{
    if ls.len() > 0 {
        lemma_first_link_found(ls.drop_last(), display_id);
        assert forall|edge: ScreenEdge| #[trigger] link_found_at(ls, display_id, edge) by {
            assert(link_found_at(ls.drop_last(), display_id, edge));
            if first_link(ls.drop_last(), display_id, edge) is Some {
                let i = first_link(ls.drop_last(), display_id, edge)->0;
                assert(ls.drop_last()[i] == ls[i]);
            }
        }
    }
}

} // verus!
