//! Proportional layout arithmetic: splitting a rectangle of character cells
//! into contiguous children sized by percentage weights.
//!
//! The remainder policy is deterministic: every child but the last takes the
//! floor of its percentage share of the parent extent (clamped to the cells
//! still unassigned, so over-full weight lists cannot push a child negative),
//! and the last child absorbs whatever is left. Children therefore cover the
//! parent exactly, with no gap and no overlap.

use vstd::prelude::*;
use vstd::arithmetic::div_mod::{
    lemma_div_pos_is_pos, lemma_fundamental_div_mod, lemma_mod_bound,
};

verus! {

/// A rectangle of character cells: origin plus extent.
#[derive(Clone, Copy, PartialEq, Eq, Structural, Debug)]
pub struct Rect {
    pub x: u16,
    pub y: u16,
    pub width: u16,
    pub height: u16,
}

/// The axis along which a rectangle is split.
#[derive(Clone, Copy, PartialEq, Eq, Structural, Debug)]
pub enum Direction {
    Horizontal,
    Vertical,
}

impl Rect {
    /// The rectangle fits the u16 coordinate space: its far edges have
    /// representable coordinates.
    pub open spec fn wf(self) -> bool {
        self.x + self.width <= u16::MAX && self.y + self.height <= u16::MAX
    }

    /// The extent of the rectangle along the split axis.
    pub open spec fn extent(self, dir: Direction) -> int {
        match dir {
            Direction::Horizontal => self.width as int,
            Direction::Vertical => self.height as int,
        }
    }
}

/// The weights of a split, as mathematical integers.
pub open spec fn weights_int(ws: Seq<u16>) -> Seq<int> {
    ws.map_values(|w: u16| w as int)
}

/// The floor share of `extent` for one percentage weight, clamped to the
/// cells still unassigned.
pub open spec fn weight_share(extent: int, weight: int, remaining: int) -> int {
    let f = extent * weight / 100;
    if f <= remaining {
        f
    } else {
        remaining
    }
}

/// The cells of a parent extent still unassigned before child `i`: every
/// child before it but the last took its clamped floor share, and the last
/// child leaves nothing behind.
pub open spec fn remaining_before(extent: int, weights: Seq<int>, i: int) -> int
    decreases i,
{
    if i <= 0 {
        extent
    } else if i - 1 == weights.len() - 1 {
        0
    } else {
        let r = remaining_before(extent, weights, i - 1);
        r - weight_share(extent, weights[i - 1], r)
    }
}

/// The extent of child `i` along the split axis.
pub open spec fn child_extent(extent: int, weights: Seq<int>, i: int) -> int {
    let r = remaining_before(extent, weights, i);
    if i == weights.len() - 1 {
        r
    } else {
        weight_share(extent, weights[i], r)
    }
}

/// The offset of child `i` from the parent's origin along the split axis.
pub open spec fn child_offset(extent: int, weights: Seq<int>, i: int) -> int {
    extent - remaining_before(extent, weights, i)
}

/// Child `i` of a split of `rect` along `dir` by `weights`.
pub open spec fn child_rect(rect: Rect, dir: Direction, weights: Seq<int>, i: int) -> Rect {
    let off = child_offset(rect.extent(dir), weights, i);
    let ext = child_extent(rect.extent(dir), weights, i);
    match dir {
        Direction::Horizontal => Rect {
            x: (rect.x + off) as u16,
            y: rect.y,
            width: ext as u16,
            height: rect.height,
        },
        Direction::Vertical => Rect {
            x: rect.x,
            y: (rect.y + off) as u16,
            width: rect.width,
            height: ext as u16,
        },
    }
}

/// The unassigned cells stay between 0 and the parent extent.
pub proof fn lemma_remaining_bounds(extent: int, weights: Seq<int>, i: int)
    requires
        0 <= extent,
        forall|j: int| 0 <= j < weights.len() ==> weights[j] >= 0,
        0 <= i <= weights.len(),
    ensures
        0 <= remaining_before(extent, weights, i) <= extent,
    decreases i,
{
    if i > 0 && i - 1 != weights.len() - 1 {
        lemma_remaining_bounds(extent, weights, i - 1);
        let r = remaining_before(extent, weights, i - 1);
        assert(extent * weights[i - 1] >= 0) by (nonlinear_arith)
            requires
                extent >= 0,
                weights[i - 1] >= 0,
        ;
        lemma_div_pos_is_pos(extent * weights[i - 1], 100);
    }
}

/// Law: a split never produces a negative-dimension child — every child
/// extent is non-negative, within what was left for it, and within the
/// parent extent.
pub proof fn lemma_child_extent_bounds(extent: int, weights: Seq<int>, i: int)
    requires
        0 <= extent,
        forall|j: int| 0 <= j < weights.len() ==> weights[j] >= 0,
        0 <= i < weights.len(),
    ensures
        0 <= child_extent(extent, weights, i) <= remaining_before(extent, weights, i),
        child_extent(extent, weights, i) <= extent,
{
    lemma_remaining_bounds(extent, weights, i);
    if i != weights.len() - 1 {
        assert(extent * weights[i] >= 0) by (nonlinear_arith)
            requires
                extent >= 0,
                weights[i] >= 0,
        ;
        lemma_div_pos_is_pos(extent * weights[i], 100);
    }
}

/// Law: children are contiguous — each child begins where the previous one
/// ended, the first begins at the parent's origin, and the last ends at the
/// parent's far edge, so the children cover the parent extent exactly.
pub proof fn lemma_children_contiguous(extent: int, weights: Seq<int>, i: int)
    requires
        0 <= i < weights.len(),
    ensures
        child_offset(extent, weights, 0) == 0,
        child_offset(extent, weights, i) + child_extent(extent, weights, i) == child_offset(
            extent,
            weights,
            i + 1,
        ),
        child_offset(extent, weights, weights.len() as int) == extent,
{
    assert(remaining_before(extent, weights, weights.len() as int) == 0);
}

/// Law: children never overlap — along the split axis, every child ends at
/// or before the place where any later child begins.
pub proof fn lemma_children_no_overlap(extent: int, weights: Seq<int>, i: int, j: int)
    requires
        0 <= extent,
        forall|k: int| 0 <= k < weights.len() ==> weights[k] >= 0,
        0 <= i < j < weights.len(),
    ensures
        child_offset(extent, weights, i) + child_extent(extent, weights, i) <= child_offset(
            extent,
            weights,
            j,
        ),
    decreases j - i,
{
    lemma_children_contiguous(extent, weights, i);
    if i + 1 < j {
        lemma_children_no_overlap(extent, weights, i + 1, j);
        lemma_child_extent_bounds(extent, weights, i + 1);
    }
}

/// Law: splitting a zero-extent parent yields only zero-extent children.
pub proof fn lemma_zero_extent_children(weights: Seq<int>, i: int)
    requires
        forall|j: int| 0 <= j < weights.len() ==> weights[j] >= 0,
        0 <= i < weights.len(),
    ensures
        child_extent(0, weights, i) == 0,
{
    lemma_remaining_bounds(0, weights, i);
}

/// The floor shares of two weights never overshoot a parent that their sum
/// fits into: `extent * wa / 100 + extent * wb / 100 <= extent` when
/// `wa + wb <= 100`.
proof fn lemma_two_floor_shares_fit(extent: int, wa: int, wb: int)
    requires
        0 <= extent,
        0 <= wa,
        0 <= wb,
        wa + wb <= 100,
    ensures
        extent * wa / 100 + extent * wb / 100 <= extent,
{
    let pa = extent * wa;
    let pb = extent * wb;
    assert(extent * wa + extent * wb <= 100 * extent) by (nonlinear_arith)
        requires
            0 <= extent,
            0 <= wa,
            0 <= wb,
            wa + wb <= 100,
    ;
    lemma_fundamental_div_mod(pa, 100);
    lemma_fundamental_div_mod(pb, 100);
    lemma_mod_bound(pa, 100);
    lemma_mod_bound(pb, 100);
    assert(100 * (pa / 100) + 100 * (pb / 100) <= 100 * extent);
    assert(pa / 100 + pb / 100 <= extent);
}

/// Law: a three-way split whose weights sum to at most 100 gives the first
/// two children exactly the floor of their percentage share, gives the
/// remainder to the last child, and covers the parent exactly — no gap and
/// no overlap.
pub proof fn lemma_three_way_floor_split(extent: int, wa: int, wb: int, wc: int)
    requires
        0 <= extent,
        0 <= wa,
        0 <= wb,
        0 <= wc,
        wa + wb + wc <= 100,
    ensures
        child_extent(extent, seq![wa, wb, wc], 0) == extent * wa / 100,
        child_extent(extent, seq![wa, wb, wc], 1) == extent * wb / 100,
        child_extent(extent, seq![wa, wb, wc], 2) == extent - extent * wa / 100 - extent * wb
            / 100,
        child_extent(extent, seq![wa, wb, wc], 0) + child_extent(extent, seq![wa, wb, wc], 1)
            + child_extent(extent, seq![wa, wb, wc], 2) == extent,
{
    let ws = seq![wa, wb, wc];
    let fa = extent * wa / 100;
    let fb = extent * wb / 100;
    lemma_two_floor_shares_fit(extent, wa, wb);
    assert(extent * wa >= 0) by (nonlinear_arith)
        requires
            extent >= 0,
            wa >= 0,
    ;
    assert(extent * wb >= 0) by (nonlinear_arith)
        requires
            extent >= 0,
            wb >= 0,
    ;
    lemma_div_pos_is_pos(extent * wa, 100);
    lemma_div_pos_is_pos(extent * wb, 100);
    assert(remaining_before(extent, ws, 0) == extent);
    assert(fa <= extent);
    assert(child_extent(extent, ws, 0) == fa);
    assert(remaining_before(extent, ws, 1) == extent - fa);
    assert(fb <= extent - fa);
    assert(child_extent(extent, ws, 1) == fb);
    assert(remaining_before(extent, ws, 2) == extent - fa - fb);
}

/// Splits `rect` along `dir` into one child per weight, each the clamped
/// floor of its percentage share of the parent extent, the last child
/// absorbing the remainder. A zero-extent parent yields zero-extent children;
/// nothing overflows the u16 coordinate space and no child escapes it.
pub fn partition(rect: Rect, dir: Direction, weights: &Vec<u16>) -> (r: Vec<Rect>)
    requires
        rect.wf(),
    ensures
        r@.len() == weights@.len(),
        forall|i: int|
            0 <= i < r@.len() ==> r@[i] == child_rect(rect, dir, weights_int(weights@), i),
        forall|i: int| 0 <= i < r@.len() ==> (#[trigger] r@[i]).wf(),
{
    let ghost ws = weights_int(weights@);
    let extent: u16 = match dir {
        Direction::Horizontal => rect.width,
        Direction::Vertical => rect.height,
    };
    let mut remaining: u16 = extent;
    let mut result: Vec<Rect> = Vec::new();
    let n = weights.len();
    let mut i: usize = 0;
    while i < n
        invariant
            n == weights@.len(),
            i <= n,
            rect.wf(),
            ws == weights_int(weights@),
            extent as int == rect.extent(dir),
            result@.len() == i,
            remaining <= extent,
            remaining as int == remaining_before(extent as int, ws, i as int),
            forall|k: int| 0 <= k < i ==> result@[k] == child_rect(rect, dir, ws, k),
            forall|k: int| 0 <= k < i ==> (#[trigger] result@[k]).wf(),
        decreases n - i,
    {
        proof {
            assert(ws[i as int] == weights@[i as int] as int);
        }
        let w = weights[i];
        let size: u16;
        if i + 1 < n {
            proof {
                assert((extent as int) * (w as int) <= 65535 * 65535) by (nonlinear_arith)
                    requires
                        extent <= 65535,
                        w <= 65535,
                        0 <= extent,
                        0 <= w,
                ;
            }
            let f: u32 = (extent as u32) * (w as u32) / 100;
            if f <= remaining as u32 {
                size = f as u16;
            } else {
                size = remaining;
            }
            proof {
                assert(size as int == weight_share(extent as int, ws[i as int], remaining as int));
            }
        } else {
            size = remaining;
        }
        let offset: u16 = extent - remaining;
        let child = match dir {
            Direction::Horizontal => Rect {
                x: rect.x + offset,
                y: rect.y,
                width: size,
                height: rect.height,
            },
            Direction::Vertical => Rect {
                x: rect.x,
                y: rect.y + offset,
                width: rect.width,
                height: size,
            },
        };
        proof {
            assert(child == child_rect(rect, dir, ws, i as int));
            assert(remaining_before(extent as int, ws, i as int + 1) == if i as int == ws.len() - 1 {
                0int
            } else {
                remaining as int - weight_share(extent as int, ws[i as int], remaining as int)
            });
        }
        result.push(child);
        remaining = remaining - size;
        i = i + 1;
    }
    result
}

} // verus!
