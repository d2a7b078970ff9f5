//! The laws this layer keeps, stated over the registries' mathematical
//! views and proved once for all inputs.

use vstd::prelude::*;
use crate::cable::CableId;
use crate::event::Event;
use crate::geom::{Pos, Rect};
use crate::plug::{DraggedPlug, PlugId};
use crate::port::{hover_fallback, hover_resolves, PortId};
use crate::state::spec_generation;
use crate::store::lemma_assoc_map_empty;

verus! {

/// Last write wins: writing a value twice for one key leaves exactly the
/// second value readable, and every other key untouched. This is what both
/// position registries promise per frame.
pub proof fn lemma_last_write_wins<K, V>(m: Map<K, V>, k: K, v1: V, v2: V)
    ensures
        m.insert(k, v1).insert(k, v2).contains_key(k),
        m.insert(k, v1).insert(k, v2)[k] == v2,
        forall|other: K|
            other != k ==> m.insert(k, v1).insert(k, v2).contains_key(other)
                == m.contains_key(other),
        forall|other: K|
            other != k && m.contains_key(other) ==> m.insert(k, v1).insert(k, v2)[other]
                == m[other],
{
}

/// The port position registry keeps the last of two writes in a frame.
pub proof fn lemma_port_pos_last_write_wins(
    m: Map<PortId, Pos>,
    port_id: PortId,
    p1: Pos,
    p2: Pos,
)
    ensures
        m.insert(port_id, p1).insert(port_id, p2)[port_id] == p2,
{
    lemma_last_write_wins(m, port_id, p1, p2);
}

/// The plug position registry keeps the last of two writes in a frame.
pub proof fn lemma_plug_pos_last_write_wins(
    m: Map<PlugId, Pos>,
    plug_id: PlugId,
    p1: Pos,
    p2: Pos,
)
    ensures
        m.insert(plug_id, p1).insert(plug_id, p2)[plug_id] == p2,
{
    lemma_last_write_wins(m, plug_id, p1, p2);
}

/// With no dragged plug recorded, the proximity fallback never reports a
/// hover, whatever finite rectangle the port occupies; hover then resolves
/// exactly as the native hit-test does.
pub proof fn lemma_no_drag_no_fallback(rect: Rect, hit_test: bool)
    ensures
        !hover_fallback(rect, None::<DraggedPlug>),
        hover_resolves(rect, hit_test, None::<DraggedPlug>) == hit_test,
{
}

/// Draining the event channel leaves it empty, so a second drain in the
/// same frame hands out nothing: a list that enumerates an empty channel
/// holds no entries.
pub proof fn lemma_drain_idempotent(drained: Seq<(CableId, Event)>)
    requires
        crate::store::assoc_map(drained) == Map::<CableId, Event>::empty(),
    ensures
        drained.len() == 0,
{
    lemma_assoc_map_empty(drained);
}

/// An event recorded for one cable overwrites only that cable's earlier
/// event; events for every other cable are unaffected.
pub proof fn lemma_event_overwrite_isolated(
    e: Map<CableId, Event>,
    cable_id: CableId,
    ev1: Event,
    ev2: Event,
)
    ensures
        e.insert(cable_id, ev1).insert(cable_id, ev2)[cable_id] == ev2,
        forall|other: CableId|
            other != cable_id ==> e.insert(cable_id, ev1).insert(cable_id, ev2).contains_key(other)
                == e.contains_key(other),
        forall|other: CableId|
            other != cable_id && e.contains_key(other) ==> e.insert(cable_id, ev1).insert(
                cable_id,
                ev2,
            )[other] == e[other],
{
}

/// Generation counters are per port and step by one: advancing a port's
/// counter raises exactly that counter, and rendering one port never
/// advances another's. Starting from a fresh frame the counter reads 0,
/// then 1, then 2.
pub proof fn lemma_generation_monotonic(g: Map<PortId, u64>, a: PortId, b: PortId)
    requires
        spec_generation(g, a) < u64::MAX,
    ensures
        spec_generation(g.insert(a, (spec_generation(g, a) + 1) as u64), a) == spec_generation(
            g,
            a,
        ) + 1,
        a != b ==> spec_generation(g.insert(a, (spec_generation(g, a) + 1) as u64), b)
            == spec_generation(g, b),
{
}

/// The concrete steps of a fresh frame: a port rendered twice counts
/// 0 -> 1 -> 2, and a second port still counts 0.
pub proof fn lemma_generation_twice_from_fresh(a: PortId, b: PortId)
    ensures
        spec_generation(Map::<PortId, u64>::empty(), a) == 0,
        spec_generation(Map::<PortId, u64>::empty().insert(a, 1), a) == 1,
        spec_generation(Map::<PortId, u64>::empty().insert(a, 1).insert(a, 2), a) == 2,
        a != b ==> spec_generation(Map::<PortId, u64>::empty().insert(a, 1).insert(a, 2), b) == 0,
{
}

} // verus!
