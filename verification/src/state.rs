//! The aggregate interaction state persisted between frames: the position
//! registry, the drag tracker, the hover resolver's target, the per-frame
//! generation counters and the event channel.
//!
//! One `State` exists per UI context and lives for that context's lifetime.
//! Positions, the drag slot and the hover target persist across frames; the
//! generation counters and the event channel are frame-scoped scratch that
//! [`State::begin_frame`] resets.

use vstd::prelude::*;
use crate::cable::CableId;
use crate::event::Event;
use crate::geom::Pos;
use crate::plug::{DraggedPlug, PlugId};
use crate::port::PortId;
use crate::store::{assoc_map, keys_unique, lemma_assoc_map_empty, CableMap, PlugMap, PortMap};

verus! {

/// The mathematical content of a [`State`], one field per registry.
pub ghost struct StateView {
    pub port_pos: Map<PortId, Pos>,
    pub plug_pos: Map<PlugId, Pos>,
    pub hovered_port_id: Option<PortId>,
    pub dragged_plug: Option<DraggedPlug>,
    pub generation: Map<PortId, u64>,
    pub event: Map<CableId, Event>,
}

/// The view with the port position registry replaced.
pub open spec fn with_port_pos(v: StateView, port_pos: Map<PortId, Pos>) -> StateView {
    StateView { port_pos, ..v }
}

/// The view with the plug position registry replaced.
pub open spec fn with_plug_pos(v: StateView, plug_pos: Map<PlugId, Pos>) -> StateView {
    StateView { plug_pos, ..v }
}

/// The view with the hover target replaced.
pub open spec fn with_hovered(v: StateView, hovered_port_id: Option<PortId>) -> StateView {
    StateView { hovered_port_id, ..v }
}

/// The view with the drag slot replaced.
pub open spec fn with_dragged(v: StateView, dragged_plug: Option<DraggedPlug>) -> StateView {
    StateView { dragged_plug, ..v }
}

/// The view with the generation counters replaced.
pub open spec fn with_generation(v: StateView, generation: Map<PortId, u64>) -> StateView {
    StateView { generation, ..v }
}

/// The view with the event channel replaced.
pub open spec fn with_event(v: StateView, event: Map<CableId, Event>) -> StateView {
    StateView { event, ..v }
}

/// The generation counter recorded for a port: zero if never advanced.
pub open spec fn spec_generation(generation: Map<PortId, u64>, port_id: PortId) -> u64 {
    if generation.contains_key(port_id) {
        generation[port_id]
    } else {
        0
    }
}

/// The per-context interaction state.
pub struct State {
    port_pos: PortMap<Pos>,
    plug_pos: PlugMap<Pos>,
    hovered_port_id: Option<PortId>,
    dragged_plug: Option<DraggedPlug>,
    generation: PortMap<u64>,
    event: CableMap<Event>,
}

impl View for State {
    type V = StateView;

    closed spec fn view(&self) -> StateView {
        StateView {
            port_pos: self.port_pos@,
            plug_pos: self.plug_pos@,
            hovered_port_id: self.hovered_port_id,
            dragged_plug: self.dragged_plug,
            generation: self.generation@,
            event: self.event@,
        }
    }
}

impl State {
    /// Well-formed: every backing registry holds each key at most once.
    pub closed spec fn wf(&self) -> bool {
        self.port_pos.wf() && self.plug_pos.wf() && self.generation.wf() && self.event.wf()
    }

    /// A fresh state: nothing rendered, nothing dragged, nothing hovered.
    pub fn new() -> (r: State)
        ensures
            r.wf(),
            r@.port_pos == Map::<PortId, Pos>::empty(),
            r@.plug_pos == Map::<PlugId, Pos>::empty(),
            r@.hovered_port_id is None,
            r@.dragged_plug is None,
            r@.generation == Map::<PortId, u64>::empty(),
            r@.event == Map::<CableId, Event>::empty(),
    {
        State {
            port_pos: PortMap::new(),
            plug_pos: PlugMap::new(),
            hovered_port_id: None,
            dragged_plug: None,
            generation: PortMap::new(),
            event: CableMap::new(),
        }
    }

    /// Overwrites (or inserts) the port's stored position; the last call in
    /// a frame wins. Nothing else changes.
    pub fn update_port_pos(&mut self, port_id: PortId, pos: Pos)
        requires
            old(self).wf(),
        ensures
            final(self).wf(),
            final(self)@ == with_port_pos(old(self)@, old(self)@.port_pos.insert(port_id, pos)),
    {
        self.port_pos.insert(port_id, pos);
    }

    /// Overwrites (or inserts) the plug's stored position; the last call in
    /// a frame wins. Nothing else changes.
    pub fn update_plug_pos(&mut self, plug_id: PlugId, pos: Pos)
        requires
            old(self).wf(),
        ensures
            final(self).wf(),
            final(self)@ == with_plug_pos(old(self)@, old(self)@.plug_pos.insert(plug_id, pos)),
    {
        self.plug_pos.insert(plug_id, pos);
    }

    /// The most recently written position of the port, or none if the port
    /// was never rendered. Absence is a normal state, not a failure.
    pub fn port_pos(&self, port_id: PortId) -> (r: Option<Pos>)
        ensures
            (match r {
                Some(pos) => self@.port_pos.contains_key(port_id) && pos
                    == self@.port_pos[port_id],
                None => !self@.port_pos.contains_key(port_id),
            }),
    {
        self.port_pos.get(port_id)
    }

    /// The most recently written position of the plug, or none if the plug
    /// was never rendered. Absence is a normal state, not a failure.
    pub fn plug_pos(&self, plug_id: PlugId) -> (r: Option<Pos>)
        ensures
            (match r {
                Some(pos) => self@.plug_pos.contains_key(plug_id) && pos
                    == self@.plug_pos[plug_id],
                None => !self@.plug_pos.contains_key(plug_id),
            }),
    {
        self.plug_pos.get(plug_id)
    }

    /// Replaces the single drag slot unconditionally; only the actively
    /// dragged plug writes here, by construction of the rendering protocol.
    pub fn update_dragged_plug(&mut self, dragged_plug: DraggedPlug)
        requires
            old(self).wf(),
        ensures
            final(self).wf(),
            final(self)@ == with_dragged(old(self)@, Some(dragged_plug)),
    {
        self.dragged_plug = Some(dragged_plug);
    }

    /// The drag slot. It is never cleared when a drag ends: a consumer that
    /// needs "currently dragging" must combine this with its own drag signal.
    pub fn dragged_plug(&self) -> (r: Option<DraggedPlug>)
        ensures
            r == self@.dragged_plug,
    {
        self.dragged_plug
    }

    /// Sets the current hover target. Overwrite semantics: if several ports
    /// qualify in one frame, the last rendered one wins.
    pub fn update_hovered_port_id(&mut self, port_id: PortId)
        requires
            old(self).wf(),
        ensures
            final(self).wf(),
            final(self)@ == with_hovered(old(self)@, Some(port_id)),
    {
        self.hovered_port_id = Some(port_id);
    }

    /// The port currently eligible to receive a connection, if any.
    pub fn hovered_port_id(&self) -> (r: Option<PortId>)
        ensures
            r == self@.hovered_port_id,
    {
        self.hovered_port_id
    }

    /// Steps the port's per-frame render counter. A port rendered more than
    /// once per frame is a caller error the host can detect here; registry
    /// state is never corrupted by it, the last render simply wins.
    pub fn advance_generation_if_twice(&mut self, port_id: PortId)
        requires
            old(self).wf(),
            spec_generation(old(self)@.generation, port_id) < u64::MAX,
        ensures
            final(self).wf(),
            final(self)@ == with_generation(
                old(self)@,
                old(self)@.generation.insert(
                    port_id,
                    (spec_generation(old(self)@.generation, port_id) + 1) as u64,
                ),
            ),
    {
        let cur: u64 = match self.generation.get(port_id) {
            Some(n) => n,
            None => 0,
        };
        self.generation.insert(port_id, cur + 1);
    }

    /// How many times the port has rendered since the frame began.
    pub fn generation(&self, port_id: PortId) -> (r: u64)
        ensures
            r == spec_generation(self@.generation, port_id),
    {
        match self.generation.get(port_id) {
            Some(n) => n,
            None => 0,
        }
    }

    /// Records a connection event for the cable, overwriting any earlier
    /// event for the same cable within the frame. Other cables are untouched.
    pub fn insert_event(&mut self, cable_id: CableId, event: Event)
        requires
            old(self).wf(),
        ensures
            final(self).wf(),
            final(self)@ == with_event(old(self)@, old(self)@.event.insert(cable_id, event)),
    {
        self.event.insert(cable_id, event);
    }

    /// Drains the event channel: hands every pending event out (each cable
    /// once, in no promised order) and leaves the channel empty, so stale
    /// events are never replayed. The host calls this once per frame.
    pub fn drain_events(&mut self) -> (r: Vec<(CableId, Event)>)
        requires
            old(self).wf(),
        ensures
            final(self).wf(),
            final(self)@ == with_event(old(self)@, Map::<CableId, Event>::empty()),
            assoc_map(r@) == old(self)@.event,
            keys_unique(r@),
            old(self)@.event == Map::<CableId, Event>::empty() ==> r@.len() == 0,
    {
        let r = self.event.take_entries();
        proof {
            if assoc_map(r@) == Map::<CableId, Event>::empty() {
                lemma_assoc_map_empty(r@);
            }
        }
        r
    }

    /// Per-frame reset of the frame-scoped scratch: generation counters and
    /// the event channel start the frame empty. Positions, the drag slot and
    /// the hover target persist; in particular the drag slot is deliberately
    /// not cleared here (see [`State::dragged_plug`]).
    pub fn begin_frame(&mut self)
        requires
            old(self).wf(),
        ensures
            final(self).wf(),
            final(self)@ == with_event(
                with_generation(old(self)@, Map::<PortId, u64>::empty()),
                Map::<CableId, Event>::empty(),
            ),
    {
        self.generation.clear();
        let _ = self.event.take_entries();
    }
}

} // verus!
