//! Ports: stationary, host-owned connection targets that plugs attach to,
//! and the per-frame render protocol a port follows against the shared state.

use vstd::prelude::*;
use crate::geom::{center2_x, center2_y, min_extent, Rect};
use crate::plug::DraggedPlug;
use crate::state::{spec_generation, with_generation, with_hovered, with_port_pos, State};

verus! {

/// Stable, opaque identifier of a port, supplied by the host application.
/// It stays valid across frames as long as the host supplies the same one.
#[derive(Debug, Clone, Copy, PartialEq, Eq, Hash, Structural)]
pub struct PortId {
    pub id: u64,
}

impl PortId {
    pub fn new(id: u64) -> (r: Self)
        ensures
            r == (PortId { id }),
    {
        PortId { id }
    }
}

/// A connectable port about to be rendered this frame.
#[derive(Debug, Clone, Copy, PartialEq, Eq, Structural)]
pub struct Port {
    pub port_id: PortId,
}

impl Port {
    pub fn new(port_id: PortId) -> (r: Self)
        ensures
            r == (Port { port_id }),
    {
        Port { port_id }
    }
}

/// The proximity fallback of the hover resolver: the squared distance
/// between the port's center and the dragged plug's center is below the
/// square of half the sum of the two shapes' smaller extents — "circles
/// touching", whatever the aspect ratios. Stated over doubled coordinates,
/// which keeps the halved threshold exact:
/// `distSq(center(rect), d.pos) < ((min(w,h) + min(dw,dh)) / 2)^2`
/// both sides multiplied by four.
pub open spec fn plug_touches_port(rect: Rect, d: DraggedPlug) -> bool {
    let dx = center2_x(rect) - 2 * d.pos.x;
    let dy = center2_y(rect) - 2 * d.pos.y;
    let reach = min_extent(rect.size) + min_extent(d.size);
    dx * dx + dy * dy < reach * reach
}

/// The fallback against the drag slot. With no dragged plug recorded the
/// slot stands for a point at infinity with size zero, so the fallback
/// never fires.
pub open spec fn hover_fallback(rect: Rect, dragged_plug: Option<DraggedPlug>) -> bool {
    match dragged_plug {
        Some(d) => plug_touches_port(rect, d),
        None => false,
    }
}

/// Hover resolution for a rendered port: the host's native hit-test, or the
/// proximity fallback. The fallback exists because native hit-testing fails
/// while the pointer is captured by the dragged plug's own region.
pub open spec fn hover_resolves(rect: Rect, hit_test: bool, dragged_plug: Option<
    DraggedPlug,
>) -> bool {
    hit_test || hover_fallback(rect, dragged_plug)
}

proof fn lemma_square_bound(x: int, b: int)
    by (nonlinear_arith)
    requires
        -b <= x <= b,
        0 <= b,
    ensures
        0 <= x * x <= b * b,
{
}

/// Decides the proximity fallback for one port against one drag record.
pub fn plug_touches_port_check(rect: Rect, d: DraggedPlug) -> (r: bool)
    ensures
        r == plug_touches_port(rect, d),
{
    let cx: i64 = 2 * (rect.min.x as i64) + (rect.size.w as i64);
    let cy: i64 = 2 * (rect.min.y as i64) + (rect.size.h as i64);
    let dx: i64 = cx - 2 * (d.pos.x as i64);
    let dy: i64 = cy - 2 * (d.pos.y as i64);
    let rw: u32 = if rect.size.w <= rect.size.h {
        rect.size.w
    } else {
        rect.size.h
    };
    let dw: u32 = if d.size.w <= d.size.h {
        d.size.w
    } else {
        d.size.h
    };
    let reach: i64 = (rw as i64) + (dw as i64);
    proof {
        lemma_square_bound(dx as int, 17179869184);
        lemma_square_bound(dy as int, 17179869184);
        lemma_square_bound(reach as int, 8589934592);
    }
    let dist_sq: i128 = (dx as i128) * (dx as i128) + (dy as i128) * (dy as i128);
    let reach_sq: i128 = (reach as i128) * (reach as i128);
    dist_sq < reach_sq
}

impl Port {
    /// One frame's render step for this port, after the host has laid the
    /// port out at `rect` and run its native hit-test for the pointer.
    ///
    /// Returns whether the port was the hover target when the step began
    /// (what the port's visuals show this frame). Then, per the protocol:
    /// the generation counter steps, the resolved position is written to the
    /// registry (last write wins), and, if hover resolves — native hit-test
    /// or proximity fallback against the drag slot — the port makes itself
    /// the hover target, overwriting any earlier port of this frame.
    pub fn ui(self, state: &mut State, rect: Rect, hit_test: bool) -> (was_hovered: bool)
        requires
            old(state).wf(),
            spec_generation(old(state)@.generation, self.port_id) < u64::MAX,
        ensures
            final(state).wf(),
            was_hovered == (old(state)@.hovered_port_id == Some(self.port_id)),
            final(state)@ == with_hovered(
                with_port_pos(
                    with_generation(
                        old(state)@,
                        old(state)@.generation.insert(
                            self.port_id,
                            (spec_generation(old(state)@.generation, self.port_id) + 1) as u64,
                        ),
                    ),
                    old(state)@.port_pos.insert(self.port_id, rect.min),
                ),
                if hover_resolves(rect, hit_test, old(state)@.dragged_plug) {
                    Some(self.port_id)
                } else {
                    old(state)@.hovered_port_id
                },
            ),
    {
        let was_hovered = match state.hovered_port_id() {
            Some(p) => p == self.port_id,
            None => false,
        };
        state.advance_generation_if_twice(self.port_id);
        state.update_port_pos(self.port_id, rect.min);
        let hovered = hit_test || (match state.dragged_plug() {
            Some(d) => plug_touches_port_check(rect, d),
            None => false,
        });
        if hovered {
            state.update_hovered_port_id(self.port_id);
        }
        was_hovered
    }
}

} // verus!
