use egui_cable::cable::CableId;
use egui_cable::event::Event;
use egui_cable::geom::Pos;
use egui_cable::plug::{PlugId, PlugType};
use egui_cable::port::PortId;
use egui_cable::state::State;

#[test]
fn port_pos_last_write_wins() {
    let mut state = State::new();
    let p1 = PortId::new(1);
    state.update_port_pos(p1, Pos::new(10, 20));
    state.update_port_pos(p1, Pos::new(30, 40));
    assert_eq!(state.port_pos(p1), Some(Pos::new(30, 40)));
}

#[test]
fn plug_pos_last_write_wins() {
    let mut state = State::new();
    let id = PlugId::new(CableId::new(7), PlugType::In);
    state.update_plug_pos(id, Pos::new(1, 2));
    state.update_plug_pos(id, Pos::new(3, 4));
    assert_eq!(state.plug_pos(id), Some(Pos::new(3, 4)));
}

#[test]
fn absent_positions_read_none() {
    let state = State::new();
    assert_eq!(state.port_pos(PortId::new(5)), None);
    assert_eq!(state.plug_pos(PlugId::new(CableId::new(5), PlugType::Out)), None);
}

#[test]
fn writes_do_not_touch_other_keys() {
    let mut state = State::new();
    let a = PortId::new(1);
    let b = PortId::new(2);
    state.update_port_pos(a, Pos::new(1, 1));
    state.update_port_pos(b, Pos::new(2, 2));
    state.update_port_pos(a, Pos::new(9, 9));
    assert_eq!(state.port_pos(b), Some(Pos::new(2, 2)));
    assert_eq!(state.port_pos(a), Some(Pos::new(9, 9)));
}

#[test]
fn hovered_port_id_overwrites() {
    let mut state = State::new();
    assert_eq!(state.hovered_port_id(), None);
    state.update_hovered_port_id(PortId::new(1));
    state.update_hovered_port_id(PortId::new(2));
    assert_eq!(state.hovered_port_id(), Some(PortId::new(2)));
}

#[test]
fn generation_steps_per_port() {
    let mut state = State::new();
    let a = PortId::new(1);
    let b = PortId::new(2);
    assert_eq!(state.generation(a), 0);
    state.advance_generation_if_twice(a);
    assert_eq!(state.generation(a), 1);
    state.advance_generation_if_twice(a);
    assert_eq!(state.generation(a), 2);
    assert_eq!(state.generation(b), 0);
}

#[test]
fn event_drain_is_idempotent() {
    let mut state = State::new();
    let c1 = CableId::new(1);
    let c2 = CableId::new(2);
    let p = PortId::new(9);
    state.insert_event(c1, Event::Connected { plug_type: PlugType::In, port_id: p });
    state.insert_event(c1, Event::Connected { plug_type: PlugType::Out, port_id: p });
    state.insert_event(c2, Event::Connected { plug_type: PlugType::In, port_id: p });
    let drained = state.drain_events();
    assert_eq!(drained.len(), 2);
    let for_c1: Vec<&(CableId, Event)> = drained.iter().filter(|e| e.0 == c1).collect();
    let for_c2: Vec<&(CableId, Event)> = drained.iter().filter(|e| e.0 == c2).collect();
    assert_eq!(for_c1.len(), 1);
    assert_eq!(
        for_c1[0].1,
        Event::Connected { plug_type: PlugType::Out, port_id: p }
    );
    assert_eq!(for_c2.len(), 1);
    assert_eq!(
        for_c2[0].1,
        Event::Connected { plug_type: PlugType::In, port_id: p }
    );
    let again = state.drain_events();
    assert_eq!(again.len(), 0);
}

#[test]
fn begin_frame_resets_scratch_keeps_positions() {
    let mut state = State::new();
    let a = PortId::new(1);
    let c = CableId::new(3);
    state.update_port_pos(a, Pos::new(4, 5));
    state.update_hovered_port_id(a);
    state.advance_generation_if_twice(a);
    state.insert_event(c, Event::Connected { plug_type: PlugType::In, port_id: a });
    state.begin_frame();
    assert_eq!(state.generation(a), 0);
    assert_eq!(state.drain_events().len(), 0);
    assert_eq!(state.port_pos(a), Some(Pos::new(4, 5)));
    assert_eq!(state.hovered_port_id(), Some(a));
}
