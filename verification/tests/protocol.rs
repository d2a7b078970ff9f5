use egui_cable::cable::CableId;
use egui_cable::event::Event;
use egui_cable::geom::{Delta, Pos, Rect, Size};
use egui_cable::plug::{DraggedPlug, Plug, PlugId, PlugType};
use egui_cable::port::{plug_touches_port_check, Port, PortId};
use egui_cable::state::State;

fn no_drag() -> (Size, Delta, bool, bool) {
    (Size::new(10, 10), Delta::new(0, 0), false, false)
}

#[test]
fn proximity_fallback_fires_when_circles_touch() {
    // port 20x20 centered at (100,100); plug 10x10 centered at (105,105):
    // distance ~7.07 is under the (20+10)/2 = 15 threshold
    let rect = Rect::new(Pos::new(90, 90), Size::new(20, 20));
    let d = DraggedPlug { pos: Pos::new(105, 105), size: Size::new(10, 10) };
    assert!(plug_touches_port_check(rect, d));
}

#[test]
fn proximity_fallback_respects_threshold() {
    // same shapes, horizontally apart: distance 15 is not under 15
    let rect = Rect::new(Pos::new(90, 90), Size::new(20, 20));
    let at_threshold = DraggedPlug { pos: Pos::new(115, 100), size: Size::new(10, 10) };
    assert!(!plug_touches_port_check(rect, at_threshold));
    let just_inside = DraggedPlug { pos: Pos::new(114, 100), size: Size::new(10, 10) };
    assert!(plug_touches_port_check(rect, just_inside));
}

#[test]
fn fallback_uses_smaller_extents() {
    // a wide, flat port: only its 4-unit height counts, so the threshold is
    // (4 + 2) / 2 = 3 and a plug 3 away is not hovered
    let rect = Rect::new(Pos::new(0, 0), Size::new(100, 4));
    let d = DraggedPlug { pos: Pos::new(50, 5), size: Size::new(2, 2) };
    assert!(!plug_touches_port_check(rect, d));
    let near = DraggedPlug { pos: Pos::new(50, 4), size: Size::new(2, 2) };
    assert!(plug_touches_port_check(rect, near));
}

#[test]
fn no_drag_record_never_hovers() {
    // with nothing recorded in the drag slot and a failing hit-test, no
    // finite port ever resolves as hovered
    let mut state = State::new();
    let rects = [
        Rect::new(Pos::new(0, 0), Size::new(1, 1)),
        Rect::new(Pos::new(-1000, -1000), Size::new(4000, 4000)),
        Rect::new(Pos::new(2147483547, 2147483547), Size::new(100, 100)),
    ];
    let mut n: u64 = 0;
    for rect in rects {
        let was = Port::new(PortId::new(n)).ui(&mut state, rect, false);
        assert!(!was);
        assert_eq!(state.hovered_port_id(), None);
        n += 1;
    }
}

#[test]
fn hit_test_alone_hovers() {
    let mut state = State::new();
    let p = PortId::new(1);
    let rect = Rect::new(Pos::new(0, 0), Size::new(8, 8));
    let was = Port::new(p).ui(&mut state, rect, true);
    assert!(!was); // not yet hovered when the frame began
    assert_eq!(state.hovered_port_id(), Some(p));
    // the next render of the same port reports the stored hover
    let was = Port::new(p).ui(&mut state, rect, true);
    assert!(was);
}

#[test]
fn later_rendered_port_wins_hover() {
    let mut state = State::new();
    let a = PortId::new(1);
    let b = PortId::new(2);
    Port::new(a).ui(&mut state, Rect::new(Pos::new(0, 0), Size::new(8, 8)), true);
    Port::new(b).ui(&mut state, Rect::new(Pos::new(4, 4), Size::new(8, 8)), true);
    assert_eq!(state.hovered_port_id(), Some(b));
}

#[test]
fn anchored_plug_follows_port_then_memory_then_default() {
    let mut state = State::new();
    let port = PortId::new(3);
    let id = PlugId::new(CableId::new(1), PlugType::In);
    let (size, delta, dragged, released) = no_drag();

    // nothing known at all: the caller-supplied default decides
    let plug = Plug::plug_to(port).id(id).default_pos(Pos::new(11, 12));
    assert_eq!(plug.ui(&mut state, size, delta, dragged, released), Pos::new(11, 12));

    // the port renders: the plug follows its position, default ignored
    Port::new(port).ui(&mut state, Rect::new(Pos::new(40, 50), Size::new(8, 8)), false);
    let plug = Plug::plug_to(port).id(id).default_pos(Pos::new(11, 12));
    assert_eq!(plug.ui(&mut state, size, delta, dragged, released), Pos::new(40, 50));

    // a remembered plug position is used only while the port is absent, so
    // rebuild a fresh state holding just the plug's memory
    let mut state = State::new();
    state.update_plug_pos(id, Pos::new(7, 8));
    let plug = Plug::plug_to(port).id(id);
    assert_eq!(plug.ui(&mut state, size, delta, dragged, released), Pos::new(7, 8));
}

#[test]
fn free_plug_starts_at_default_and_applies_delta() {
    let mut state = State::new();
    let id = PlugId::new(CableId::new(1), PlugType::Out);
    let plug = Plug::new().id(id).default_pos(Pos::new(100, 100));
    let r = plug.ui(&mut state, Size::new(10, 10), Delta::new(3, -4), false, false);
    assert_eq!(r, Pos::new(103, 96));
    assert_eq!(state.plug_pos(id), Some(Pos::new(103, 96)));
    // the next frame continues from the stored position
    let plug = Plug::new().id(id).default_pos(Pos::new(100, 100));
    let r = plug.ui(&mut state, Size::new(10, 10), Delta::new(1, 1), false, false);
    assert_eq!(r, Pos::new(104, 97));
}

#[test]
fn dragging_records_the_plug_center() {
    let mut state = State::new();
    let id = PlugId::new(CableId::new(1), PlugType::Out);
    let plug = Plug::new().id(id).default_pos(Pos::new(100, 100));
    plug.ui(&mut state, Size::new(10, 10), Delta::new(0, 0), true, false);
    assert_eq!(
        state.dragged_plug(),
        Some(DraggedPlug { pos: Pos::new(105, 105), size: Size::new(10, 10) })
    );
    // without an active drag the slot is left as it is
    let plug = Plug::new().id(id);
    plug.ui(&mut state, Size::new(10, 10), Delta::new(2, 2), false, false);
    assert_eq!(
        state.dragged_plug(),
        Some(DraggedPlug { pos: Pos::new(105, 105), size: Size::new(10, 10) })
    );
}

#[test]
fn scenario_drag_near_port_connects() {
    // port at center (100,100) size (20,20); plug "cable 1, Out end"
    // dragged to center (105,105) with size (10,10); on release the event
    // channel holds the connect event for that cable
    let mut state = State::new();
    let cable = CableId::new(1);
    let id = PlugId::new(cable, PlugType::Out);
    let port = PortId::new(1);

    // drag frame: the plug reaches (100,100) top-left, center (105,105)
    state.begin_frame();
    let plug = Plug::new().id(id).default_pos(Pos::new(100, 100));
    plug.ui(&mut state, Size::new(10, 10), Delta::new(0, 0), true, false);
    Port::new(port).ui(&mut state, Rect::new(Pos::new(90, 90), Size::new(20, 20)), false);
    assert_eq!(state.hovered_port_id(), Some(port));

    // release frame
    state.begin_frame();
    let plug = Plug::new().id(id);
    plug.ui(&mut state, Size::new(10, 10), Delta::new(0, 0), false, true);
    let drained = state.drain_events();
    assert_eq!(drained.len(), 1);
    assert_eq!(drained[0].0, cable);
    assert_eq!(
        drained[0].1,
        Event::Connected { plug_type: PlugType::Out, port_id: port }
    );
}

#[test]
fn scenario_release_far_from_port_yields_no_event() {
    // port at center (100,100) size (20,20); dragged plug far away at
    // (500,500); hit-test fails, so nothing is hovered and a release emits
    // no event for the cable
    let mut state = State::new();
    let cable = CableId::new(1);
    let id = PlugId::new(cable, PlugType::Out);
    let port = PortId::new(1);

    state.begin_frame();
    let plug = Plug::new().id(id).default_pos(Pos::new(495, 495));
    plug.ui(&mut state, Size::new(10, 10), Delta::new(0, 0), true, false);
    Port::new(port).ui(&mut state, Rect::new(Pos::new(90, 90), Size::new(20, 20)), false);
    assert_eq!(state.hovered_port_id(), None);

    state.begin_frame();
    let plug = Plug::new().id(id);
    plug.ui(&mut state, Size::new(10, 10), Delta::new(0, 0), false, true);
    assert_eq!(state.drain_events().len(), 0);
}

#[test]
fn scenario_port_rendered_twice_keeps_last_position() {
    // the same port rendered twice in one frame: the later position is
    // authoritative and the generation counter reads 2
    let mut state = State::new();
    let port = PortId::new(1);
    state.begin_frame();
    Port::new(port).ui(&mut state, Rect::new(Pos::new(100, 100), Size::new(8, 8)), false);
    Port::new(port).ui(&mut state, Rect::new(Pos::new(200, 200), Size::new(8, 8)), false);
    assert_eq!(state.port_pos(port), Some(Pos::new(200, 200)));
    assert_eq!(state.generation(port), 2);
}

#[test]
fn plug_builders_compose() {
    let id = PlugId::new(CableId::new(2), PlugType::In);
    let plug = Plug::plug_to(PortId::new(4))
        .pos(Pos::new(1, 2))
        .default_pos(Pos::new(3, 4))
        .id(id);
    assert_eq!(plug.plug_to, Some(PortId::new(4)));
    assert_eq!(plug.pos, Some(Pos::new(1, 2)));
    assert_eq!(plug.default_pos, Some(Pos::new(3, 4)));
    assert_eq!(plug.id, Some(id));
    assert_eq!(Plug::new(), Plug::default());
}
