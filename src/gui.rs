use vstd::prelude::*;
use crate::context::{Context, Program};
use crate::draw::{requested, Viewport};
use crate::event::{Event, FrameInput, Key, Modifiers, MouseButton, Pixel, State};
use crate::render_states::{
    Blend, BlendEquation, BlendMultiplier, BlendParameters, Cull, DepthTest, RenderStates, WriteMask,
};

verus! {

/// The GUI logic's context, which keeps its state from frame to frame.
#[verifier::external_type_specification]
#[verifier::external_body]
pub struct ExCtxRef(egui::CtxRef);

/// Relies on egui::CtxRef::wants_pointer_input: whether egui is interested in the
/// pointer this frame. It depends on egui's state, so nothing is stated of it.
#[verifier::external_body]
fn wants_pointer_input(ctx: &egui::CtxRef) -> (r: bool) {
    ctx.wants_pointer_input()
}

/// Relies on egui::CtxRef::wants_keyboard_input: whether a widget of egui has the
/// keyboard focus. It depends on egui's state, so nothing is stated of it.
#[verifier::external_body]
fn wants_keyboard_input(ctx: &egui::CtxRef) -> (r: bool) {
    ctx.wants_keyboard_input()
}

/// Modifier keys as the GUI logic sees them; `mac_cmd` is the cmd key on a Mac.
#[derive(Clone, Copy, Debug, PartialEq, Eq, Structural)]
pub struct GuiModifiers {
    pub alt: bool,
    pub ctrl: bool,
    pub shift: bool,
    pub mac_cmd: bool,
    pub command: bool,
}

#[derive(Clone, Copy, Debug, PartialEq, Eq, Structural)]
pub enum PointerButton {
    Primary,
    Secondary,
    Middle,
}

/// An event in the GUI logic's vocabulary.
#[derive(Debug)]
pub enum GuiEvent {
    Key { key: Key, pressed: bool, modifiers: GuiModifiers },
    PointerButton { pos: Pixel, button: PointerButton, pressed: bool, modifiers: GuiModifiers },
    PointerMoved(Pixel),
    Text(String),
    PointerGone,
}

/// What the GUI logic is fed at the start of a frame.
#[derive(Debug)]
pub struct GuiInput {
    pub scroll_delta: Pixel,
    pub screen_width: u32,
    pub screen_height: u32,
    pub modifiers: GuiModifiers,
    pub events: Vec<GuiEvent>,
}

pub open spec fn gui_modifiers(m: Modifiers, is_mac: bool) -> GuiModifiers {
    GuiModifiers {
        alt: m.alt == State::Pressed,
        ctrl: m.ctrl == State::Pressed,
        shift: m.shift == State::Pressed,
        mac_cmd: is_mac && m.command == State::Pressed,
        command: m.command == State::Pressed,
    }
}

pub open spec fn pointer_button(b: MouseButton) -> PointerButton {
    match b {
        MouseButton::Left => PointerButton::Primary,
        MouseButton::Right => PointerButton::Secondary,
        MouseButton::Middle => PointerButton::Middle,
    }
}

/// The GUI event an input event becomes: none for a handled event, a wheel event (it
/// goes to the scroll delta) or an event the GUI does not take.
pub open spec fn gui_event(e: Event, is_mac: bool) -> Option<GuiEvent> {
    match e {
        Event::Key { kind, state, modifiers, handled } => if handled {
            None
        } else {
            Some(
                GuiEvent::Key {
                    key: kind,
                    pressed: state == State::Pressed,
                    modifiers: gui_modifiers(modifiers, is_mac),
                },
            )
        },
        Event::MouseClick { state, button, position, modifiers, handled } => if handled {
            None
        } else {
            Some(
                GuiEvent::PointerButton {
                    pos: position,
                    button: pointer_button(button),
                    pressed: state == State::Pressed,
                    modifiers: gui_modifiers(modifiers, is_mac),
                },
            )
        },
        Event::MouseMotion { position, handled, .. } => if handled {
            None
        } else {
            Some(GuiEvent::PointerMoved(position))
        },
        Event::Text(t) => Some(GuiEvent::Text(t)),
        Event::MouseLeave => Some(GuiEvent::PointerGone),
        _ => None,
    }
}

/// The GUI events of a list of input events, in order.
pub open spec fn gui_events(s: Seq<Event>, is_mac: bool) -> Seq<GuiEvent>
    decreases s.len(),
{
    if s.len() == 0 {
        Seq::empty()
    } else {
        gui_events(s.drop_last(), is_mac) + match gui_event(s.last(), is_mac) {
            Some(g) => seq![g],
            None => Seq::empty(),
        }
    }
}

/// The delta of the last unhandled wheel event, or zero.
pub open spec fn scroll_delta(s: Seq<Event>) -> Pixel
    decreases s.len(),
{
    if s.len() == 0 {
        Pixel { x: 0, y: 0 }
    } else {
        match s.last() {
            Event::MouseWheel { delta, handled, .. } if !handled => delta,
            _ => scroll_delta(s.drop_last()),
        }
    }
}

/// The modifiers of the last modifier change, or none held.
pub open spec fn held_modifiers(s: Seq<Event>) -> GuiModifiers
    decreases s.len(),
{
    if s.len() == 0 {
        GuiModifiers { alt: false, ctrl: false, shift: false, mac_cmd: false, command: false }
    } else {
        match s.last() {
            Event::ModifiersChange { modifiers } => gui_modifiers(modifiers, true),
            _ => held_modifiers(s.drop_last()),
        }
    }
}

fn map_modifiers(m: &Modifiers, is_mac: bool) -> (r: GuiModifiers)
    ensures
        r == gui_modifiers(*m, is_mac),
{
    let command = m.command == State::Pressed;
    GuiModifiers {
        alt: m.alt == State::Pressed,
        ctrl: m.ctrl == State::Pressed,
        shift: m.shift == State::Pressed,
        mac_cmd: is_mac && command,
        command,
    }
}

fn map_button(b: MouseButton) -> (r: PointerButton)
    ensures
        r == pointer_button(b),
{
    match b {
        MouseButton::Left => PointerButton::Primary,
        MouseButton::Right => PointerButton::Secondary,
        MouseButton::Middle => PointerButton::Middle,
    }
}

fn translate_event(e: &Event, is_mac: bool) -> (r: Option<GuiEvent>)
    ensures
        r == gui_event(*e, is_mac),
{
    match e {
        Event::Key { kind, state, modifiers, handled } => if *handled {
            None
        } else {
            Some(
                GuiEvent::Key {
                    key: *kind,
                    pressed: *state == State::Pressed,
                    modifiers: map_modifiers(modifiers, is_mac),
                },
            )
        },
        Event::MouseClick { state, button, position, modifiers, handled } => if *handled {
            None
        } else {
            Some(
                GuiEvent::PointerButton {
                    pos: *position,
                    button: map_button(*button),
                    pressed: *state == State::Pressed,
                    modifiers: map_modifiers(modifiers, is_mac),
                },
            )
        },
        Event::MouseMotion { position, handled, .. } => if *handled {
            None
        } else {
            Some(GuiEvent::PointerMoved(*position))
        },
        Event::Text(t) => Some(GuiEvent::Text(t.clone())),
        Event::MouseLeave => Some(GuiEvent::PointerGone),
        _ => None,
    }
}

/// The GUI logic's input for a frame: the unhandled events translated in order, the
/// last unhandled wheel delta, the last modifier state and the window size. `is_mac`
/// says whether command is the cmd key.
pub fn construct_input_state(frame_input: &FrameInput, is_mac: bool) -> (r: GuiInput)
    ensures
        r.events@ == gui_events(frame_input.events@, is_mac),
        r.scroll_delta == scroll_delta(frame_input.events@),
        r.modifiers == held_modifiers(frame_input.events@),
        r.screen_width == frame_input.window_width,
        r.screen_height == frame_input.window_height,
{
    let events = &frame_input.events;
    let mut out: Vec<GuiEvent> = Vec::new();
    let mut scroll = Pixel { x: 0, y: 0 };
    let mut mods = GuiModifiers { alt: false, ctrl: false, shift: false, mac_cmd: false, command: false };
    let mut i: usize = 0;
    assert(events@.take(0) =~= Seq::empty());
    while i < events.len()
        invariant
            i <= events.len(),
            out@ == gui_events(events@.take(i as int), is_mac),
            scroll == scroll_delta(events@.take(i as int)),
            mods == held_modifiers(events@.take(i as int)),
        decreases events.len() - i,
    {
        let e = &events[i];
        assert(events@.take(i as int + 1).drop_last() =~= events@.take(i as int));
        assert(events@.take(i as int + 1).last() == *e);
        let g = translate_event(e, is_mac);
        match g {
            Some(g) => {
                out.push(g);
            },
            None => {},
        }
        match e {
            Event::MouseWheel { delta, handled, .. } => {
                if !*handled {
                    scroll = *delta;
                }
            },
            Event::ModifiersChange { modifiers } => {
                mods = map_modifiers(modifiers, true);
            },
            _ => {},
        }
        i = i + 1;
        assert(out@ =~= gui_events(events@.take(i as int), is_mac));
    }
    assert(events@.take(i as int) =~= events@);
    GuiInput {
        scroll_delta: scroll,
        screen_width: frame_input.window_width,
        screen_height: frame_input.window_height,
        modifiers: mods,
        events: out,
    }
}

/// The GUI takes the event: a pointer event while it wants the pointer, a key event
/// while it wants the keyboard.
pub open spec fn consumed(e: Event, wants_pointer: bool, wants_keyboard: bool) -> bool {
    ||| wants_pointer && (e is MouseClick || e is MouseWheel || e is MouseMotion)
    ||| wants_keyboard && e is Key
}

/// The event once the GUI has marked it handled where it takes it.
pub open spec fn marked(e: Event, wants_pointer: bool, wants_keyboard: bool) -> Event {
    if consumed(e, wants_pointer, wants_keyboard) {
        match e {
            Event::MouseClick { state, button, position, modifiers, .. } => Event::MouseClick {
                state,
                button,
                position,
                modifiers,
                handled: true,
            },
            Event::MouseWheel { delta, position, modifiers, .. } => Event::MouseWheel {
                delta,
                position,
                modifiers,
                handled: true,
            },
            Event::MouseMotion { button, delta, position, modifiers, .. } => Event::MouseMotion {
                button,
                delta,
                position,
                modifiers,
                handled: true,
            },
            Event::Key { kind, state, modifiers, .. } => Event::Key { kind, state, modifiers, handled: true },
            _ => e,
        }
    } else {
        e
    }
}

/// `after` is `before` with every event the GUI takes marked handled, and `took` says
/// whether it took any.
pub open spec fn marked_all(before: Seq<Event>, after: Seq<Event>, wants_pointer: bool, wants_keyboard: bool, took: bool) -> bool {
    &&& after.len() == before.len()
    &&& forall|i: int| 0 <= i < before.len() ==> #[trigger] after[i] == marked(before[i], wants_pointer, wants_keyboard)
    &&& took == exists|i: int| 0 <= i < before.len() && consumed(#[trigger] before[i], wants_pointer, wants_keyboard)
}

/// The event is one that carries a `handled` flag, and the flag is set.
pub open spec fn is_handled(e: Event) -> bool {
    match e {
        Event::MouseClick { handled, .. } => handled,
        Event::MouseWheel { handled, .. } => handled,
        Event::MouseMotion { handled, .. } => handled,
        Event::Key { handled, .. } => handled,
        _ => false,
    }
}

/// Marks handled every event the GUI takes, and says whether it took any.
pub fn mark_handled(events: &mut Vec<Event>, wants_pointer: bool, wants_keyboard: bool) -> (r: bool)
    ensures
        marked_all(old(events)@, final(events)@, wants_pointer, wants_keyboard, r),
{
    let ghost start = events@;
    let mut change = false;
    let mut i: usize = 0;
    while i < events.len()
        invariant
            i <= events.len(),
            events@.len() == start.len(),
            forall|j: int| 0 <= j < i ==> #[trigger] events@[j] == marked(start[j], wants_pointer, wants_keyboard),
            forall|j: int| i <= j < start.len() ==> #[trigger] events@[j] == start[j],
            change == exists|j: int| 0 <= j < i && consumed(#[trigger] start[j], wants_pointer, wants_keyboard),
        decreases events.len() - i,
    {
        let ghost e = start[i as int];
        if wants_pointer {
            match &mut events[i] {
                Event::MouseClick { handled, .. } => {
                    *handled = true;
                    change = true;
                },
                Event::MouseWheel { handled, .. } => {
                    *handled = true;
                    change = true;
                },
                Event::MouseMotion { handled, .. } => {
                    *handled = true;
                    change = true;
                },
                _ => {},
            }
        }
        if wants_keyboard {
            match &mut events[i] {
                Event::Key { handled, .. } => {
                    *handled = true;
                    change = true;
                },
                _ => {},
            }
        }
        assert(events@[i as int] == marked(e, wants_pointer, wants_keyboard));
        proof {
            if consumed(e, wants_pointer, wants_keyboard) {
                assert(consumed(start[i as int], wants_pointer, wants_keyboard));
            }
        }
        i = i + 1;
    }
    change
}

/// An event the GUI took is handled afterwards, and no later GUI frame is fed it.
pub proof fn lemma_consumed_event_not_forwarded(e: Event, wants_pointer: bool, wants_keyboard: bool, is_mac: bool)
    requires
        consumed(e, wants_pointer, wants_keyboard),
    ensures
        is_handled(marked(e, wants_pointer, wants_keyboard)),
        gui_event(marked(e, wants_pointer, wants_keyboard), is_mac) is None,
{
}


pub const GUI_VERTEX_SHADER: &'static str = "
    uniform vec2 u_screen_size;
    in vec2 a_pos;
    in vec2 a_tc;
    in vec4 a_srgba;
    out vec4 v_rgba;
    out vec2 v_tc;
    // 0-1 linear  from  0-255 sRGB
    vec3 linear_from_srgb(vec3 srgb) {
        bvec3 cutoff = lessThan(srgb, vec3(10.31475));
        vec3 lower = srgb / vec3(3294.6);
        vec3 higher = pow((srgb + vec3(14.025)) / vec3(269.025), vec3(2.4));
        return mix(higher, lower, vec3(cutoff));
    }
    vec4 linear_from_srgba(vec4 srgba) {
        return vec4(linear_from_srgb(srgba.rgb), srgba.a / 255.0);
    }
    void main() {
        gl_Position = vec4(
            2.0 * a_pos.x / u_screen_size.x - 1.0,
            1.0 - 2.0 * a_pos.y / u_screen_size.y,
            0.0,
            1.0);
        // egui encodes vertex colors in gamma spaces, so we must decode the colors here:
        v_rgba = linear_from_srgba(a_srgba);
        v_tc = a_tc;
    }
";

pub const GUI_FRAGMENT_SHADER: &'static str = "
    uniform sampler2D u_sampler;
    in vec4 v_rgba;
    in vec2 v_tc;
    layout (location = 0) out vec4 color;
    // 0-255 sRGB  from  0-1 linear
    vec3 srgb_from_linear(vec3 rgb) {
        bvec3 cutoff = lessThan(rgb, vec3(0.0031308));
        vec3 lower = rgb * vec3(3294.6);
        vec3 higher = vec3(269.025) * pow(rgb, vec3(1.0 / 2.4)) - vec3(14.025);
        return mix(higher, lower, vec3(cutoff));
    }
    vec4 srgba_from_linear(vec4 rgba) {
        return vec4(srgb_from_linear(rgba.rgb), 255.0 * rgba.a);
    }
    void main() {
        // The texture is set up with `SRGB8_ALPHA8`, so no need to decode here!
        vec4 texture_rgba = texture(u_sampler, v_tc);
        /// Multiply vertex color with texture color (in linear space).
        color = v_rgba * texture_rgba;
        // We must gamma-encode again since WebGL doesn't support linear blending in the framebuffer.
        color = srgba_from_linear(color) / 255.0;
        // WebGL doesn't support linear blending in the framebuffer,
        // so we apply this hack to at least get a bit closer to the desired blending:
        color.a = pow(color.a, 1.6); // Empiric nonsense
    }
";

/// The blending that composites the GUI over the scene: premultiplied color weights
/// `(1, 1 - src alpha)` and alpha weights `(1 - dst alpha, 1)`.
pub open spec fn gui_blend() -> Blend {
    Blend::Enabled(
        BlendParameters {
            source_rgb_multiplier: BlendMultiplier::One,
            source_alpha_multiplier: BlendMultiplier::OneMinusDstAlpha,
            destination_rgb_multiplier: BlendMultiplier::OneMinusSrcAlpha,
            destination_alpha_multiplier: BlendMultiplier::One,
            rgb_equation: BlendEquation::Add,
            alpha_equation: BlendEquation::Add,
        },
    )
}

/// The states the GUI meshes are drawn with: on top of everything, blended.
pub open spec fn gui_render_states() -> RenderStates {
    RenderStates {
        cull: Cull::Disabled,
        write_mask: WriteMask { red: true, green: true, blue: true, alpha: true, depth: true },
        depth_test: DepthTest::Always,
        blend: gui_blend(),
    }
}

pub fn paint_render_states() -> (r: RenderStates)
    ensures
        r == gui_render_states(),
{
    RenderStates {
        cull: Cull::Disabled,
        write_mask: WriteMask::color_and_depth(),
        depth_test: DepthTest::Always,
        blend: Blend::Enabled(
            BlendParameters {
                source_rgb_multiplier: BlendMultiplier::One,
                source_alpha_multiplier: BlendMultiplier::OneMinusDstAlpha,
                destination_rgb_multiplier: BlendMultiplier::OneMinusSrcAlpha,
                destination_alpha_multiplier: BlendMultiplier::One,
                rgb_equation: BlendEquation::Add,
                alpha_equation: BlendEquation::Add,
            },
        ),
    }
}

/// The RGBA bytes of an atlas, pixel after pixel.
pub open spec fn rgba_bytes(pixels: Seq<[u8; 4]>) -> Seq<u8> {
    Seq::new(4 * pixels.len(), |k: int| pixels[k / 4][k % 4])
}

/// Packs the atlas pixels into one byte buffer for the texture upload.
pub fn atlas_bytes(pixels: &Vec<[u8; 4]>) -> (r: Vec<u8>)
    ensures
        r@ == rgba_bytes(pixels@),
{
    let mut r: Vec<u8> = Vec::new();
    let mut i: usize = 0;
    while i < pixels.len()
        invariant
            i <= pixels.len(),
            r@.len() == 4 * i,
            forall|k: int| 0 <= k < 4 * i ==> #[trigger] r@[k] == pixels@[k / 4][k % 4],
        decreases pixels.len() - i,
    {
        let p = pixels[i];
        let ghost n = 4 * i as int;
        r.push(p[0]);
        r.push(p[1]);
        r.push(p[2]);
        r.push(p[3]);
        assert forall|k: int| n <= k < n + 4 implies #[trigger] r@[k] == pixels@[k / 4][k % 4] by {
            assert(k / 4 == i as int && k % 4 == k - n) by (nonlinear_arith)
                requires
                    n == 4 * i,
                    n <= k < n + 4,
            ;
        }
        i = i + 1;
    }
    assert(r@ =~= rgba_bytes(pixels@));
    r
}

/// The atlas texture the compositor holds: none yet, or one of the given version.
pub open spec fn atlas_outdated(has_texture: bool, cached_version: u64, version: u64) -> bool {
    !has_texture || cached_version != version
}

/// How many of the render calls, with the atlas versions `versions` in turn, rebuild the
/// atlas texture, starting from the given texture.
pub open spec fn rebuild_count(has_texture: bool, cached_version: u64, versions: Seq<u64>) -> nat
    decreases versions.len(),
{
    if versions.len() == 0 {
        0
    } else {
        let v = versions[0];
        (if atlas_outdated(has_texture, cached_version, v) { 1nat } else { 0nat }) + rebuild_count(
            true,
            v,
            versions.drop_first(),
        )
    }
}

/// The compositor of an immediate-mode GUI: its program, the window size of the current
/// frame and the version of the atlas texture it uploaded last.
pub struct GuiCompositor {
    program: Program,
    width: u32,
    height: u32,
    texture_version: u64,
    has_texture: bool,
}

impl GuiCompositor {
    pub closed spec fn gui_program(&self) -> Program {
        self.program
    }

    pub closed spec fn size(&self) -> (u32, u32) {
        (self.width, self.height)
    }

    pub closed spec fn has_atlas(&self) -> bool {
        self.has_texture
    }

    pub closed spec fn atlas_version(&self) -> u64 {
        self.texture_version
    }

    /// A compositor with its program compiled, no atlas and no window size yet.
    pub fn new(context: &mut Context) -> (r: GuiCompositor)
        requires
            old(context).wf(),
        ensures
            final(context).wf(),
            requested(
                old(context).sources(),
                final(context).sources(),
                (GUI_VERTEX_SHADER@, GUI_FRAGMENT_SHADER@),
                r.gui_program().id,
            ),
            !r.has_atlas(),
            r.atlas_version() == 0,
            r.size() == (0u32, 0u32),
    {
        let (program, _) = context.program(GUI_VERTEX_SHADER, GUI_FRAGMENT_SHADER);
        GuiCompositor { program, width: 0, height: 0, texture_version: 0, has_texture: false }
    }

    pub fn program(&self) -> (r: Program)
        ensures
            r == self.gui_program(),
    {
        self.program
    }

    /// The window size of the current frame, in logical pixels.
    pub fn window_size(&self) -> (r: (u32, u32))
        ensures
            r == self.size(),
    {
        (self.width, self.height)
    }

    /// Starts a frame: takes the window size and returns the GUI logic's input.
    pub fn begin_frame(&mut self, frame_input: &FrameInput, is_mac: bool) -> (r: GuiInput)
        ensures
            r.events@ == gui_events(frame_input.events@, is_mac),
            r.scroll_delta == scroll_delta(frame_input.events@),
            r.modifiers == held_modifiers(frame_input.events@),
            r.screen_width == frame_input.window_width,
            r.screen_height == frame_input.window_height,
            final(self).size() == (frame_input.window_width, frame_input.window_height),
            final(self).gui_program() == old(self).gui_program(),
            final(self).has_atlas() == old(self).has_atlas(),
            final(self).atlas_version() == old(self).atlas_version(),
    {
        self.width = frame_input.window_width;
        self.height = frame_input.window_height;
        construct_input_state(frame_input, is_mac)
    }

    /// Ends the input part of a frame: marks handled the events the GUI took, and says
    /// whether it took any, so that the caller knows the GUI must be drawn again.
    pub fn update(&self, frame_input: &mut FrameInput, wants_pointer: bool, wants_keyboard: bool) -> (r: bool)
        ensures
            final(frame_input).window_width == old(frame_input).window_width,
            final(frame_input).window_height == old(frame_input).window_height,
            marked_all(old(frame_input).events@, final(frame_input).events@, wants_pointer, wants_keyboard, r),
    {
        mark_handled(&mut frame_input.events, wants_pointer, wants_keyboard)
    }

    /// Ends the input part of a frame built with `ctx`: asks egui whether it wants the
    /// pointer and the keyboard, and marks handled what it takes, as `update` does.
    pub fn take_handled(&self, ctx: &egui::CtxRef, frame_input: &mut FrameInput) -> (r: bool)
        ensures
            final(frame_input).window_width == old(frame_input).window_width,
            final(frame_input).window_height == old(frame_input).window_height,
            exists|wants_pointer: bool, wants_keyboard: bool|
                #[trigger] marked_all(
                    old(frame_input).events@,
                    final(frame_input).events@,
                    wants_pointer,
                    wants_keyboard,
                    r,
                ),
    {
        let wants_pointer = wants_pointer_input(ctx);
        let wants_keyboard = wants_keyboard_input(ctx);
        let r = self.update(frame_input, wants_pointer, wants_keyboard);
        assert(marked_all(old(frame_input).events@, frame_input.events@, wants_pointer, wants_keyboard, r));
        r
    }

    /// Whether a render with the atlas at `version` must upload the atlas texture again.
    pub fn atlas_needs_upload(&self, version: u64) -> (r: bool)
        ensures
            r == atlas_outdated(self.has_atlas(), self.atlas_version(), version),
    {
        !self.has_texture || self.texture_version != version
    }

    /// Records that the atlas texture of `version` was uploaded.
    pub fn atlas_uploaded(&mut self, version: u64)
        ensures
            final(self).has_atlas(),
            final(self).atlas_version() == version,
            final(self).gui_program() == old(self).gui_program(),
            final(self).size() == old(self).size(),
    {
        self.has_texture = true;
        self.texture_version = version;
    }

    /// The atlas step of a render whose atlas is at `version`: says whether the texture
    /// must be rebuilt from the atlas pixels now, and records it as holding `version`.
    /// Over a run of renders, the number of rebuilds is `rebuild_count`.
    pub fn begin_render(&mut self, version: u64) -> (r: bool)
        ensures
            r == atlas_outdated(old(self).has_atlas(), old(self).atlas_version(), version),
            final(self).has_atlas(),
            final(self).atlas_version() == version,
            final(self).gui_program() == old(self).gui_program(),
            final(self).size() == old(self).size(),
    {
        let r = self.atlas_needs_upload(version);
        self.atlas_uploaded(version);
        r
    }

    /// The viewport of the GUI meshes: the window size in physical pixels.
    pub fn paint_viewport(&self, pixels_per_point: u32) -> (r: Viewport)
        requires
            self.size().0 * pixels_per_point <= u32::MAX,
            self.size().1 * pixels_per_point <= u32::MAX,
        ensures
            r == (Viewport {
                x: 0,
                y: 0,
                width: (self.size().0 * pixels_per_point) as u32,
                height: (self.size().1 * pixels_per_point) as u32,
            }),
    {
        Viewport { x: 0, y: 0, width: self.width * pixels_per_point, height: self.height * pixels_per_point }
    }
}

/// From any atlas state, renders at one unchanged atlas version rebuild the texture at
/// most once, on the first of them, and exactly then when the texture held is missing
/// or of another version; a render right after the version changes rebuilds it again.
pub proof fn lemma_atlas_rebuilt_once(has_texture: bool, cached_version: u64, v: u64, w: u64, n: nat)
    requires
        n >= 1,
        w != v,
    ensures
        rebuild_count(has_texture, cached_version, Seq::new(n, |i: int| v)) == if atlas_outdated(
            has_texture,
            cached_version,
            v,
        ) {
            1nat
        } else {
            0nat
        },
        rebuild_count(has_texture, cached_version, Seq::new(n, |i: int| v).push(w)) == 1 + if atlas_outdated(
            has_texture,
            cached_version,
            v,
        ) {
            1nat
        } else {
            0nat
        },
{
    lemma_same_version_no_rebuild(v, (n - 1) as nat);
    assert(Seq::new(n, |i: int| v).drop_first() =~= Seq::new((n - 1) as nat, |i: int| v));
    lemma_same_then_new(v, w, (n - 1) as nat);
    assert(Seq::new(n, |i: int| v).push(w).drop_first() =~= Seq::new((n - 1) as nat, |i: int| v).push(w));
}

proof fn lemma_same_version_no_rebuild(v: u64, n: nat)
    ensures
        rebuild_count(true, v, Seq::new(n, |i: int| v)) == 0,
    decreases n,
{
    if n > 0 {
        assert(Seq::new(n, |i: int| v).drop_first() =~= Seq::new((n - 1) as nat, |i: int| v));
        lemma_same_version_no_rebuild(v, (n - 1) as nat);
    }
}

proof fn lemma_same_then_new(v: u64, w: u64, n: nat)
    requires
        w != v,
    ensures
        rebuild_count(true, v, Seq::new(n, |i: int| v).push(w)) == 1,
    decreases n,
{
    let s = Seq::new(n, |i: int| v).push(w);
    if n > 0 {
        assert(s[0] == v);
        assert(s.drop_first() =~= Seq::new((n - 1) as nat, |i: int| v).push(w));
        lemma_same_then_new(v, w, (n - 1) as nat);
    } else {
        assert(s.drop_first() =~= Seq::<u64>::empty());
        assert(rebuild_count(true, w, s.drop_first()) == 0);
    }
}

} // verus!
