use scene_render::context::Context;
use scene_render::event::{Event, FrameInput, Key, Modifiers, MouseButton, Pixel, State};
use scene_render::gui::{
    atlas_bytes, construct_input_state, mark_handled, paint_render_states, GuiCompositor, GuiEvent,
    PointerButton,
};
use scene_render::render_states::{Blend, BlendMultiplier, DepthTest};

fn no_mods() -> Modifiers {
    Modifiers { alt: State::Released, ctrl: State::Released, shift: State::Released, command: State::Released }
}

fn px(x: i32, y: i32) -> Pixel {
    Pixel { x, y }
}

fn frame() -> FrameInput {
    FrameInput {
        events: vec![
            Event::MouseClick { state: State::Pressed, button: MouseButton::Left, position: px(3, 4), modifiers: no_mods(), handled: false },
            Event::Key { kind: Key::A, state: State::Pressed, modifiers: no_mods(), handled: false },
            Event::Text("a".to_string()),
            Event::MouseWheel { delta: px(0, -3), position: px(3, 4), modifiers: no_mods(), handled: false },
            Event::MouseLeave,
        ],
        window_width: 640,
        window_height: 480,
    }
}

#[test]
fn input_state_translates_unhandled_events() {
    let input = construct_input_state(&frame(), false);
    assert_eq!(input.screen_width, 640);
    assert_eq!(input.screen_height, 480);
    assert_eq!(input.scroll_delta, px(0, -3));
    assert_eq!(input.events.len(), 4);
    match &input.events[0] {
        GuiEvent::PointerButton { pos, button, pressed, .. } => {
            assert_eq!(*pos, px(3, 4));
            assert_eq!(*button, PointerButton::Primary);
            assert!(*pressed);
        }
        other => panic!("unexpected {:?}", other),
    }
    assert!(matches!(input.events[1], GuiEvent::Key { key: Key::A, pressed: true, .. }));
    assert!(matches!(&input.events[2], GuiEvent::Text(t) if t == "a"));
    assert!(matches!(input.events[3], GuiEvent::PointerGone));
}

#[test]
fn handled_events_are_not_fed_to_the_gui() {
    let mut f = frame();
    assert!(mark_handled(&mut f.events, true, false));
    let input = construct_input_state(&f, false);
    // The click and the wheel are taken; the key, the text and the leave stay.
    assert_eq!(input.events.len(), 3);
    assert!(matches!(input.events[0], GuiEvent::Key { .. }));
    assert_eq!(input.scroll_delta, px(0, 0));
}

#[test]
fn update_marks_only_wanted_events() {
    let mut ctx = Context::new();
    let gui = GuiCompositor::new(&mut ctx);
    let mut f = frame();
    assert!(gui.update(&mut f, false, true));
    assert!(matches!(f.events[0], Event::MouseClick { handled: false, .. }));
    assert!(matches!(f.events[1], Event::Key { handled: true, .. }));
    assert!(matches!(f.events[3], Event::MouseWheel { handled: false, .. }));
}

#[test]
fn update_without_wanted_input_changes_nothing() {
    let mut ctx = Context::new();
    let gui = GuiCompositor::new(&mut ctx);
    let mut f = frame();
    assert!(!gui.update(&mut f, false, false));
    assert!(matches!(f.events[0], Event::MouseClick { handled: false, .. }));
    let mut empty = FrameInput { events: vec![], window_width: 1, window_height: 1 };
    assert!(!gui.update(&mut empty, true, true));
}

#[test]
fn modifier_change_sets_held_modifiers() {
    let shift = Modifiers { shift: State::Pressed, command: State::Pressed, ..no_mods() };
    let f = FrameInput { events: vec![Event::ModifiersChange { modifiers: shift }], window_width: 1, window_height: 1 };
    let input = construct_input_state(&f, false);
    assert!(input.modifiers.shift && input.modifiers.command && input.modifiers.mac_cmd);
    assert!(!input.modifiers.alt && !input.modifiers.ctrl);
    assert!(input.events.is_empty());
}

#[test]
fn key_modifiers_follow_platform() {
    let cmd = Modifiers { command: State::Pressed, ..no_mods() };
    let f = FrameInput {
        events: vec![Event::Key { kind: Key::Z, state: State::Released, modifiers: cmd, handled: false }],
        window_width: 1,
        window_height: 1,
    };
    for is_mac in [false, true] {
        let input = construct_input_state(&f, is_mac);
        match &input.events[0] {
            GuiEvent::Key { key, pressed, modifiers } => {
                assert_eq!(*key, Key::Z);
                assert!(!*pressed);
                assert!(modifiers.command);
                assert_eq!(modifiers.mac_cmd, is_mac);
            }
            other => panic!("unexpected {:?}", other),
        }
    }
}

#[test]
fn atlas_rebuilt_once_per_version() {
    let mut ctx = Context::new();
    let mut gui = GuiCompositor::new(&mut ctx);
    let mut rebuilds = 0;
    for _ in 0..5 {
        if gui.atlas_needs_upload(7) {
            rebuilds += 1;
            gui.atlas_uploaded(7);
        }
    }
    assert_eq!(rebuilds, 1);
    assert!(gui.atlas_needs_upload(8));
    gui.atlas_uploaded(8);
    assert!(!gui.atlas_needs_upload(8));
}

#[test]
fn first_render_uploads_even_at_version_zero() {
    let mut ctx = Context::new();
    let gui = GuiCompositor::new(&mut ctx);
    assert!(gui.atlas_needs_upload(0));
}

#[test]
fn gui_program_compiled_once() {
    let mut ctx = Context::new();
    let a = GuiCompositor::new(&mut ctx);
    let b = GuiCompositor::new(&mut ctx);
    assert_eq!(a.program(), b.program());
    assert_eq!(ctx.program_count(), 1);
}

#[test]
fn atlas_pixels_packed_rgba() {
    let bytes = atlas_bytes(&vec![[1, 2, 3, 4], [5, 6, 7, 8]]);
    assert_eq!(bytes, vec![1, 2, 3, 4, 5, 6, 7, 8]);
    assert!(atlas_bytes(&vec![]).is_empty());
}

#[test]
fn gui_states_draw_on_top_blended() {
    let s = paint_render_states();
    assert_eq!(s.depth_test, DepthTest::Always);
    match s.blend {
        Blend::Enabled(p) => {
            assert_eq!(p.source_rgb_multiplier, BlendMultiplier::One);
            assert_eq!(p.destination_rgb_multiplier, BlendMultiplier::OneMinusSrcAlpha);
            assert_eq!(p.source_alpha_multiplier, BlendMultiplier::OneMinusDstAlpha);
            assert_eq!(p.destination_alpha_multiplier, BlendMultiplier::One);
        }
        Blend::Disabled => panic!("the GUI must blend"),
    }
}

#[test]
fn begin_frame_takes_window_size() {
    let mut ctx = Context::new();
    let mut gui = GuiCompositor::new(&mut ctx);
    let input = gui.begin_frame(&frame(), false);
    assert_eq!(input.events.len(), 4);
    let vp = gui.paint_viewport(2);
    assert_eq!((vp.width, vp.height), (1280, 960));
}

#[test]
fn fresh_egui_context_takes_no_event() {
    let mut ctx = Context::new();
    let gui = GuiCompositor::new(&mut ctx);
    let egui_ctx = egui::CtxRef::default();
    let mut f = frame();
    assert!(!gui.take_handled(&egui_ctx, &mut f));
    assert!(matches!(f.events[0], Event::MouseClick { handled: false, .. }));
    assert!(matches!(f.events[1], Event::Key { handled: false, .. }));
}

#[test]
fn begin_render_rebuilds_once_per_version() {
    let mut ctx = Context::new();
    let mut gui = GuiCompositor::new(&mut ctx);
    let rebuilds = (0..4).filter(|_| gui.begin_render(3)).count();
    assert_eq!(rebuilds, 1);
    assert!(gui.begin_render(4));
    assert!(!gui.begin_render(4));
}
