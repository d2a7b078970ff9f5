//! Plugs: draggable connection endpoints, each belonging to one cable and
//! one side, and the per-frame render protocol a plug follows against the
//! shared state.

use vstd::prelude::*;
use crate::cable::CableId;
use crate::event::Event;
use crate::geom::{Delta, Pos, Size};
use crate::port::PortId;
use crate::state::{with_dragged, with_event, with_plug_pos, State, StateView};

verus! {

/// Which end of a cable a plug is.
#[derive(Debug, Clone, Copy, PartialEq, Eq, Hash, Structural)]
pub enum PlugType {
    In,
    Out,
}

/// Composite key of one endpoint of one cable, used as a registry key.
#[derive(Debug, Clone, Copy, PartialEq, Eq, Hash, Structural)]
pub struct PlugId {
    pub cable_id: CableId,
    pub plug_type: PlugType,
}

impl PlugId {
    pub fn new(cable_id: CableId, plug_type: PlugType) -> (r: Self)
        ensures
            r == (PlugId { cable_id, plug_type }),
    {
        PlugId { cable_id, plug_type }
    }
}

/// Last-known center and size of the plug currently mid-drag. At most one
/// exists at a time; the record may persist, semantically stale, after the
/// drag ends, until the next drag overwrites it.
#[derive(Debug, Clone, Copy, PartialEq, Eq, Structural)]
pub struct DraggedPlug {
    pub pos: Pos,
    pub size: Size,
}

/// A cable endpoint about to be rendered this frame.
#[derive(Debug, Clone, Copy, PartialEq, Eq, Structural)]
pub struct Plug {
    /// The port this plug is statically bound to, if any: an anchored plug
    /// follows its port; a free plug is draggable.
    pub plug_to: Option<PortId>,
    /// A caller-supplied position override, recorded for the cable's own
    /// layout; the interaction protocol itself does not read it.
    pub pos: Option<Pos>,
    /// The endpoint's registry key. The owning cable must assign it before
    /// the plug renders; rendering without it is a caller error.
    pub id: Option<PlugId>,
    /// Where the plug appears when nothing else resolves its position: a
    /// free plug before its first render, or an anchored plug whose port is
    /// absent with nothing remembered.
    pub default_pos: Option<Pos>,
}

impl Default for Plug {
    fn default() -> (r: Self)
        ensures
            r == (Plug { plug_to: None, pos: None, id: None, default_pos: None }),
    {
        Plug { plug_to: None, pos: None, id: None, default_pos: None }
    }
}

impl Plug {
    pub fn new() -> (r: Self)
        ensures
            r == (Plug { plug_to: None, pos: None, id: None, default_pos: None }),
    {
        Plug::default()
    }

    /// A plug anchored to `port`.
    pub fn plug_to(port: PortId) -> (r: Self)
        ensures
            r == (Plug { plug_to: Some(port), pos: None, id: None, default_pos: None }),
    {
        Plug { plug_to: Some(port), pos: None, id: None, default_pos: None }
    }

    /// Records a position override for the cable's own layout.
    pub fn pos(self, pos: Pos) -> (r: Self)
        ensures
            r == (Plug { pos: Some(pos), ..self }),
    {
        Plug { pos: Some(pos), ..self }
    }

    /// Sets where the plug first appears when nothing is stored for it yet.
    pub fn default_pos(self, pos: Pos) -> (r: Self)
        ensures
            r == (Plug { default_pos: Some(pos), ..self }),
    {
        Plug { default_pos: Some(pos), ..self }
    }

    /// Assigns the endpoint's registry key; the owning cable calls this
    /// before the plug renders.
    pub fn id(self, id: PlugId) -> (r: Self)
        ensures
            r == (Plug { id: Some(id), ..self }),
    {
        Plug { id: Some(id), ..self }
    }
}

/// Whether this render has nothing to resolve the plug's position from but
/// the caller-supplied default: for an anchored plug, the port is not
/// currently rendered and nothing is remembered; for a free plug, nothing
/// is remembered.
pub open spec fn spec_needs_default(v: StateView, plug: Plug) -> bool {
    match plug.plug_to {
        Some(port_id) => !v.port_pos.contains_key(port_id) && !v.plug_pos.contains_key(
            plug.id.unwrap(),
        ),
        None => !v.plug_pos.contains_key(plug.id.unwrap()),
    }
}

/// Where a plug resolves before this frame's drag delta applies. Anchored:
/// the port's live position; if the port is not currently rendered, the
/// plug's own last remembered position; the caller-supplied default as last
/// resort. Free: the last remembered position, or the caller-supplied
/// default.
pub open spec fn spec_resolved_pos(v: StateView, plug: Plug) -> Pos {
    match plug.plug_to {
        Some(port_id) => if v.port_pos.contains_key(port_id) {
            v.port_pos[port_id]
        } else if v.plug_pos.contains_key(plug.id.unwrap()) {
            v.plug_pos[plug.id.unwrap()]
        } else {
            plug.default_pos.unwrap()
        },
        None => if v.plug_pos.contains_key(plug.id.unwrap()) {
            v.plug_pos[plug.id.unwrap()]
        } else {
            plug.default_pos.unwrap()
        },
    }
}

/// The resolved x coordinate with the frame's drag delta applied, unbounded.
pub open spec fn spec_moved_x(v: StateView, plug: Plug, drag_delta: Delta) -> int {
    spec_resolved_pos(v, plug).x + drag_delta.x
}

/// The resolved y coordinate with the frame's drag delta applied, unbounded.
pub open spec fn spec_moved_y(v: StateView, plug: Plug, drag_delta: Delta) -> int {
    spec_resolved_pos(v, plug).y + drag_delta.y
}

/// The machine limit on a free plug's render: the moved position, and the
/// center of the moved plug's rectangle, stay within the coordinate space.
pub open spec fn moved_pos_fits(v: StateView, plug: Plug, drag_delta: Delta, size: Size) -> bool {
    let x = spec_moved_x(v, plug, drag_delta);
    let y = spec_moved_y(v, plug, drag_delta);
    &&& i32::MIN <= x
    &&& x + size.w / 2 <= i32::MAX
    &&& i32::MIN <= y
    &&& y + size.h / 2 <= i32::MAX
}

/// The moved position as a point, once it is known to fit.
pub open spec fn spec_moved(v: StateView, plug: Plug, drag_delta: Delta) -> Pos {
    Pos { x: spec_moved_x(v, plug, drag_delta) as i32, y: spec_moved_y(v, plug, drag_delta) as i32 }
}

/// The center of a plug drawn with its top-left corner at `pos`: half the
/// extent further, in whole screen units (halves round down).
pub open spec fn spec_center(pos: Pos, size: Size) -> Pos {
    Pos { x: (pos.x + size.w / 2) as i32, y: (pos.y + size.h / 2) as i32 }
}

/// The event channel after a frame in which this plug's drag ended: if a
/// port is hovered, a connect event for the plug's cable, overwriting any
/// earlier event for it; otherwise the channel as it was.
pub open spec fn spec_event_after_release(v: StateView, id: PlugId) -> Map<CableId, Event> {
    match v.hovered_port_id {
        Some(port_id) => v.event.insert(
            id.cable_id,
            Event::Connected { plug_type: id.plug_type, port_id },
        ),
        None => v.event,
    }
}

impl Plug {
    /// One frame's render step for this plug. The host hands in the plug's
    /// widget extent, the drag delta accumulated this frame, whether a drag
    /// gesture is in progress, and whether it just ended; the returned
    /// position is where the host draws the plug.
    ///
    /// An anchored plug only resolves its position and writes it back. A
    /// free plug applies the drag delta, records itself in the drag slot
    /// while the gesture lasts and, on release, emits a connect event for
    /// its cable if a port is hovered; the moved position is written back
    /// in either case (last write wins).
    pub fn ui(
        self,
        state: &mut State,
        size: Size,
        drag_delta: Delta,
        dragged: bool,
        drag_released: bool,
    ) -> (r: Pos)
        requires
            old(state).wf(),
            self.id.is_some(),
            spec_needs_default(old(state)@, self) ==> self.default_pos.is_some(),
            self.plug_to.is_none() ==> moved_pos_fits(old(state)@, self, drag_delta, size),
        ensures
            final(state).wf(),
            self.plug_to.is_some() ==> {
                &&& r == spec_resolved_pos(old(state)@, self)
                &&& final(state)@ == with_plug_pos(
                    old(state)@,
                    old(state)@.plug_pos.insert(self.id.unwrap(), r),
                )
            },
            self.plug_to.is_none() ==> {
                &&& r == spec_moved(old(state)@, self, drag_delta)
                &&& final(state)@ == with_event(
                    with_dragged(
                        with_plug_pos(
                            old(state)@,
                            old(state)@.plug_pos.insert(self.id.unwrap(), r),
                        ),
                        if dragged {
                            Some(DraggedPlug { pos: spec_center(r, size), size })
                        } else {
                            old(state)@.dragged_plug
                        },
                    ),
                    if drag_released {
                        spec_event_after_release(old(state)@, self.id.unwrap())
                    } else {
                        old(state)@.event
                    },
                )
            },
    {
        let id = self.id.unwrap();
        match self.plug_to {
            Some(port_id) => {
                let pos = match state.port_pos(port_id) {
                    Some(p) => p,
                    None => match state.plug_pos(id) {
                        Some(p) => p,
                        // the port is not displayed and nothing is
                        // remembered: the caller-supplied default decides
                        None => self.default_pos.unwrap(),
                    },
                };
                state.update_plug_pos(id, pos);
                pos
            },
            None => {
                let resolved = match state.plug_pos(id) {
                    Some(p) => p,
                    None => self.default_pos.unwrap(),
                };
                let nx: i64 = (resolved.x as i64) + (drag_delta.x as i64);
                let ny: i64 = (resolved.y as i64) + (drag_delta.y as i64);
                let pos = Pos { x: nx as i32, y: ny as i32 };
                if dragged {
                    let cx: i64 = nx + ((size.w / 2) as i64);
                    let cy: i64 = ny + ((size.h / 2) as i64);
                    state.update_dragged_plug(
                        DraggedPlug { pos: Pos { x: cx as i32, y: cy as i32 }, size },
                    );
                }
                if drag_released {
                    match state.hovered_port_id() {
                        Some(port_id) => {
                            state.insert_event(
                                id.cable_id,
                                Event::Connected { plug_type: id.plug_type, port_id },
                            );
                        },
                        None => {},
                    }
                }
                state.update_plug_pos(id, pos);
                pos
            },
        }
    }
}

} // verus!
