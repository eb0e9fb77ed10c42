use crate::command_buffer::{
    frame_clear_color, white, BlendMode, CommandBuffer, CommandBufferView, CommandView,
};
use crate::shapes::{is_quad, Mesh, MINUS_ONE, ONE};
use crate::state_table::StateTable;
use crate::texture::{SamplerFilter, Texture2D, TextureView};
use vstd::prelude::*;

verus! {

/// Edge-aware state of one key. `Pressed` and `Released` last one frame.
#[derive(PartialEq, Eq, Clone, Copy, Debug, Structural)]
pub enum KeyState {
    Pressed,
    Released,
    Down,
    Up,
}

/// Edge-aware state of one mouse button, and the kind of a [`MouseEvent`].
#[derive(PartialEq, Eq, Clone, Copy, Debug, Structural)]
pub enum MouseState {
    Pressed,
    Released,
    Down,
    Up,
    Moved,
    Scroll,
}

/// A mouse button as the operating system names it.
#[derive(PartialEq, Eq, Clone, Copy, Debug, Structural)]
pub enum MouseButton {
    Left,
    Right,
    Middle,
    Other(u8),
}

impl KeyState {
    /// The state one frame later when no event arrives: edges decay.
    pub open spec fn decayed(self) -> KeyState {
        match self {
            KeyState::Pressed => KeyState::Down,
            KeyState::Released => KeyState::Up,
            other => other,
        }
    }

    /// The state after one press (`pressed`) or release event.
    pub open spec fn after_event(self, pressed: bool) -> KeyState {
        if pressed {
            match self {
                KeyState::Up | KeyState::Released => KeyState::Pressed,
                KeyState::Down | KeyState::Pressed => KeyState::Down,
            }
        } else {
            match self {
                KeyState::Down | KeyState::Pressed => KeyState::Released,
                KeyState::Up | KeyState::Released => KeyState::Up,
            }
        }
    }

    /// Executable form of [`KeyState::decayed`].
    pub fn decay(self) -> (next: KeyState)
        ensures
            next == self.decayed(),
    {
        match self {
            KeyState::Pressed => KeyState::Down,
            KeyState::Released => KeyState::Up,
            other => other,
        }
    }

    /// Executable form of [`KeyState::after_event`].
    pub fn on_event(self, pressed: bool) -> (next: KeyState)
        ensures
            next == self.after_event(pressed),
    {
        if pressed {
            match self {
                KeyState::Up | KeyState::Released => KeyState::Pressed,
                KeyState::Down | KeyState::Pressed => KeyState::Down,
            }
        } else {
            match self {
                KeyState::Down | KeyState::Pressed => KeyState::Released,
                KeyState::Up | KeyState::Released => KeyState::Up,
            }
        }
    }
}

impl MouseButton {
    /// The number under which the button table keeps this button.
    pub open spec fn code_spec(self) -> u32 {
        match self {
            MouseButton::Left => 0u32,
            MouseButton::Right => 1u32,
            MouseButton::Middle => 2u32,
            MouseButton::Other(n) => (3 + n) as u32,
        }
    }

    /// A number that tells buttons apart: distinct buttons get distinct codes.
    pub fn code(self) -> (c: u32)
        ensures
            c == self.code_spec(),
    {
        match self {
            MouseButton::Left => 0,
            MouseButton::Right => 1,
            MouseButton::Middle => 2,
            MouseButton::Other(n) => {
                let wide: u32 = n.into();
                3 + wide
            },
        }
    }
}

impl MouseState {
    /// The button state that a table entry stands for.
    pub open spec fn from_key(state: KeyState) -> MouseState {
        match state {
            KeyState::Pressed => MouseState::Pressed,
            KeyState::Released => MouseState::Released,
            KeyState::Down => MouseState::Down,
            KeyState::Up => MouseState::Up,
        }
    }

    /// The state one frame later when no event arrives: edges decay.
    pub open spec fn decayed(self) -> MouseState {
        match self {
            MouseState::Pressed => MouseState::Down,
            MouseState::Released => MouseState::Up,
            other => other,
        }
    }

    /// The state after one press (`pressed`) or release of the button.
    pub open spec fn after_event(self, pressed: bool) -> MouseState {
        if pressed {
            match self {
                MouseState::Down | MouseState::Pressed => MouseState::Down,
                _ => MouseState::Pressed,
            }
        } else {
            match self {
                MouseState::Down | MouseState::Pressed => MouseState::Released,
                _ => MouseState::Up,
            }
        }
    }
}

/// A position in window pixels; each coordinate is the bit pattern of a
/// single-precision number.
#[derive(PartialEq, Eq, Clone, Copy, Debug, Structural)]
pub struct ScreenPos {
    pub x: u32,
    pub y: u32,
}

/// One key press or release, the key named by its virtual-key code.
#[derive(PartialEq, Eq, Clone, Copy, Debug, Structural)]
pub struct KeyboardInput {
    pub key: u32,
    pub pressed: bool,
}

/// One mouse event. `state` is its kind: `Pressed` or `Released` for a
/// button, `Moved` for the cursor, `Scroll` for the wheel. Positions and
/// the scroll amount are single-precision bit patterns.
#[derive(PartialEq, Eq, Clone, Copy, Debug, Structural)]
pub struct MouseEvent {
    pub button: MouseButton,
    pub state: MouseState,
    pub screen_pos: ScreenPos,
    pub scroll: u32,
}

/// What the operating system reported, reduced to what the tracker reads.
#[derive(PartialEq, Eq, Clone, Copy, Debug, Structural)]
pub enum WindowEvent {
    CloseRequested,
    KeyboardInput(KeyboardInput),
    MouseInput { button: MouseButton, pressed: bool },
    MouseWheel { scroll: u32 },
    CursorMoved { x: u32, y: u32 },
    Other,
}

/// Cursor and wheel as of the current frame: positions in pixels and
/// every wheel movement of the frame in the order of arrival, all as
/// single-precision bit patterns. The frame's scroll amount is the sum of
/// the movements; the one who reads them adds them up.
pub struct Pointer {
    pub old_pos: ScreenPos,
    pub current_pos: ScreenPos,
    pub scroll: Seq<u32>,
}

impl Pointer {
    /// The pointer at the start of a frame: no wheel movement, no pending
    /// motion.
    pub open spec fn reset(self) -> Pointer {
        Pointer { old_pos: self.current_pos, current_pos: self.current_pos, scroll: Seq::empty() }
    }

    /// The pointer after one mouse event.
    pub open spec fn after_event(self, event: MouseEvent) -> Pointer {
        match event.state {
            MouseState::Moved => Pointer {
                old_pos: self.current_pos,
                current_pos: event.screen_pos,
                scroll: self.scroll,
            },
            MouseState::Scroll => Pointer {
                old_pos: self.old_pos,
                current_pos: self.current_pos,
                scroll: self.scroll.push(event.scroll),
            },
            _ => self,
        }
    }

    /// The pointer after `events`, taken in order.
    pub open spec fn after_events(self, events: Seq<MouseEvent>) -> Pointer
        decreases events.len(),
    {
        if events.len() == 0 {
            self
        } else {
            self.after_events(events.drop_last()).after_event(events.last())
        }
    }
}

/// The state of `key` after `events`, taken in order, starting from `start`.
pub open spec fn key_state_after(start: KeyState, key: u32, events: Seq<KeyboardInput>) -> KeyState
    decreases events.len(),
{
    if events.len() == 0 {
        start
    } else {
        let before = key_state_after(start, key, events.drop_last());
        if events.last().key == key {
            before.after_event(events.last().pressed)
        } else {
            before
        }
    }
}

/// Whether `event` presses or releases `button`.
pub open spec fn concerns_button(event: MouseEvent, button: MouseButton) -> bool {
    event.button == button && (event.state == MouseState::Pressed || event.state
        == MouseState::Released)
}

/// The state of `button` after `events`, taken in order, starting from
/// `start`.
pub open spec fn button_state_after(
    start: MouseState,
    button: MouseButton,
    events: Seq<MouseEvent>,
) -> MouseState
    decreases events.len(),
{
    if events.len() == 0 {
        start
    } else {
        let before = button_state_after(start, button, events.drop_last());
        if concerns_button(events.last(), button) {
            before.after_event(events.last().state == MouseState::Pressed)
        } else {
            before
        }
    }
}

/// Whether any of `events` asks to close the window.
pub open spec fn close_requested(events: Seq<WindowEvent>) -> bool {
    exists|i: int| 0 <= i < events.len() && events[i] == WindowEvent::CloseRequested
}

/// The keyboard events among `events`, in order.
pub open spec fn key_events_of(events: Seq<WindowEvent>) -> Seq<KeyboardInput>
    decreases events.len(),
{
    if events.len() == 0 {
        Seq::empty()
    } else {
        let rest = key_events_of(events.drop_last());
        match events.last() {
            WindowEvent::KeyboardInput(input) => rest.push(input),
            _ => rest,
        }
    }
}

/// The mouse event that `event` stands for, if it is one. Button and wheel
/// events carry `origin`, the cursor position of the frame before.
pub open spec fn mouse_event_of(event: WindowEvent, origin: ScreenPos) -> Option<MouseEvent> {
    match event {
        WindowEvent::MouseInput { button, pressed } => Some(
            MouseEvent {
                button,
                state: if pressed {
                    MouseState::Pressed
                } else {
                    MouseState::Released
                },
                screen_pos: origin,
                scroll: 0,
            },
        ),
        WindowEvent::MouseWheel { scroll } => Some(
            MouseEvent {
                button: MouseButton::Left,
                state: MouseState::Scroll,
                screen_pos: origin,
                scroll,
            },
        ),
        WindowEvent::CursorMoved { x, y } => Some(
            MouseEvent {
                button: MouseButton::Left,
                state: MouseState::Moved,
                screen_pos: ScreenPos { x, y },
                scroll: 0,
            },
        ),
        _ => None,
    }
}

/// The mouse events among `events`, in order.
pub open spec fn mouse_events_of(events: Seq<WindowEvent>, origin: ScreenPos) -> Seq<MouseEvent>
    decreases events.len(),
{
    if events.len() == 0 {
        Seq::empty()
    } else {
        let rest = mouse_events_of(events.drop_last(), origin);
        match mouse_event_of(events.last(), origin) {
            Some(event) => rest.push(event),
            None => rest,
        }
    }
}

/// Events for other keys leave a key's state as it was.
pub proof fn lemma_key_untouched(start: KeyState, key: u32, events: Seq<KeyboardInput>)
    requires
        forall|i: int| 0 <= i < events.len() ==> events[i].key != key,
    ensures
        key_state_after(start, key, events) == start,
    decreases events.len(),
{
    if events.len() > 0 {
        lemma_key_untouched(start, key, events.drop_last());
    }
}

/// What the last of `events` that concerns `key` reports: a press
/// (`true`) or a release; nothing where none concerns it.
pub open spec fn last_report(key: u32, events: Seq<KeyboardInput>) -> Option<bool>
    decreases events.len(),
{
    if events.len() == 0 {
        None
    } else if events.last().key == key {
        Some(events.last().pressed)
    } else {
        last_report(key, events.drop_last())
    }
}

/// After a press a key is `Pressed` or `Down`, after a release it is
/// `Released` or `Up`, whatever came before.
pub proof fn lemma_state_follows_last_report(start: KeyState, key: u32, events: Seq<KeyboardInput>)
    ensures
        match last_report(key, events) {
            Some(true) => key_state_after(start, key, events) == KeyState::Pressed
                || key_state_after(start, key, events) == KeyState::Down,
            Some(false) => key_state_after(start, key, events) == KeyState::Released
                || key_state_after(start, key, events) == KeyState::Up,
            None => key_state_after(start, key, events) == start,
        },
    decreases events.len(),
{
    if events.len() > 0 {
        lemma_state_follows_last_report(start, key, events.drop_last());
    }
}

/// A key that is `Pressed` in one frame is `Down` in the next frame if that
/// frame brings no event for it.
pub proof fn lemma_pressed_then_down(key: u32, next_frame: Seq<KeyboardInput>)
    requires
        forall|i: int| 0 <= i < next_frame.len() ==> next_frame[i].key != key,
    ensures
        key_state_after(KeyState::Pressed.decayed(), key, next_frame) == KeyState::Down,
{
    lemma_key_untouched(KeyState::Pressed.decayed(), key, next_frame);
}

/// A key that is `Pressed` in one frame is `Released` in the next frame if
/// and only if the last event which that frame brings for it (the one at
/// `at`) is a release, and no release of the same frame comes right
/// before it. In particular, where the frame brings one event for the
/// key, the key is `Released` exactly when that event is a release.
pub proof fn lemma_pressed_then_released(key: u32, next_frame: Seq<KeyboardInput>, at: int)
    requires
        0 <= at < next_frame.len(),
        next_frame[at].key == key,
        forall|i: int| at < i < next_frame.len() ==> next_frame[i].key != key,
    ensures
        key_state_after(KeyState::Pressed.decayed(), key, next_frame) == KeyState::Released
            <==> !next_frame[at].pressed && last_report(key, next_frame.take(at)) != Some(false),
    decreases next_frame.len(),
{
    let start = KeyState::Pressed.decayed();
    if at == next_frame.len() - 1 {
        assert(next_frame.drop_last() == next_frame.take(at));
        lemma_state_follows_last_report(start, key, next_frame.take(at));
    } else {
        assert(next_frame.drop_last().take(at) == next_frame.take(at));
        lemma_pressed_then_released(key, next_frame.drop_last(), at);
    }
}

/// `Pressed` and `Released` never outlive a frame without an event: after
/// the decay at the start of a frame no key is in either state.
pub proof fn lemma_edges_last_one_frame(state: KeyState)
    ensures
        state.decayed() != KeyState::Pressed,
        state.decayed() != KeyState::Released,
        state.decayed().decayed() == state.decayed(),
{
}

/// The window as the engine core sees it: its size and what the frame's
/// input events have made of keyboard, mouse buttons, cursor and wheel.
pub struct Window {
    client_width: u16,
    client_height: u16,
    title: &'static str,
    vsync: bool,
    key_states: StateTable,
    mouse_states: StateTable,
    old_mouse_pos: ScreenPos,
    current_mouse_pos: ScreenPos,
    mouse_scroll: Vec<u32>,
    default_texture: Texture2D,
    fullscreen_quad: Mesh,
}

/// The handle under which the backend keeps the default texture.
pub const DEFAULT_TEXTURE_HANDLE: u32 = 0;

/// The handle under which the backend keeps the fullscreen quad.
pub const FULLSCREEN_QUAD_HANDLE: u32 = 0;

impl Window {
    /// The state of the key with virtual-key code `key`.
    pub closed spec fn key_state(&self, key: u32) -> KeyState {
        self.key_states.state(key)
    }

    /// The state of `button`.
    pub closed spec fn mouse_button_state(&self, button: MouseButton) -> MouseState {
        MouseState::from_key(self.mouse_states.state(button.code_spec()))
    }

    /// Cursor positions and the frame's wheel movements.
    pub closed spec fn pointer(&self) -> Pointer {
        Pointer {
            old_pos: self.old_mouse_pos,
            current_pos: self.current_mouse_pos,
            scroll: self.mouse_scroll@,
        }
    }

    /// Width and height of the client area, in pixels.
    pub closed spec fn size(&self) -> (u16, u16) {
        (self.client_width, self.client_height)
    }

    /// The texture that fills the sampler slots which a draw call leaves
    /// open.
    pub closed spec fn spec_default_texture(&self) -> &Texture2D {
        &self.default_texture
    }

    /// The quad that a fullscreen pass draws.
    pub closed spec fn spec_fullscreen_quad(&self) -> &Mesh {
        &self.fullscreen_quad
    }

    /// Title and vertical-sync request that the window was made with.
    pub closed spec fn settings(&self) -> (&'static str, bool) {
        (self.title, self.vsync)
    }

    /// Whether two windows agree in all that input leaves alone: size,
    /// settings, default texture and fullscreen quad.
    pub open spec fn same_fittings(&self, other: &Window) -> bool {
        &&& self.size() == other.size()
        &&& self.settings() == other.settings()
        &&& self.spec_default_texture() == other.spec_default_texture()
        &&& self.spec_fullscreen_quad() == other.spec_fullscreen_quad()
    }

    /// Whether this window is what a frame with `events` makes of
    /// `before`: every key and button decayed and then taken through its
    /// events, the pointer reset and then taken through the mouse events.
    pub open spec fn follows(&self, before: &Window, events: Seq<WindowEvent>) -> bool {
        &&& forall|key: u32|
            self.key_state(key) == key_state_after(
                before.key_state(key).decayed(),
                key,
                key_events_of(events),
            )
        &&& forall|button: MouseButton|
            self.mouse_button_state(button) == button_state_after(
                before.mouse_button_state(button).decayed(),
                button,
                mouse_events_of(events, before.pointer().old_pos),
            )
        &&& self.pointer() == before.pointer().reset().after_events(
            mouse_events_of(events, before.pointer().old_pos),
        )
        &&& self.same_fittings(before)
    }

    /// Whether this is a window as it is made: of the given size and
    /// settings, every key and button `Up`, the cursor at the origin,
    /// nothing scrolled, the default texture one white texel and the
    /// fullscreen quad the quad from -1 to 1.
    pub open spec fn fresh(&self, width: u16, height: u16, title: &'static str, vsync: bool) -> bool {
        &&& self.size() == (width, height)
        &&& self.settings() == (title, vsync)
        &&& forall|key: u32| self.key_state(key) == KeyState::Up
        &&& forall|button: MouseButton| self.mouse_button_state(button) == MouseState::Up
        &&& self.pointer() == (Pointer {
            old_pos: ScreenPos { x: 0, y: 0 },
            current_pos: ScreenPos { x: 0, y: 0 },
            scroll: Seq::empty(),
        })
        &&& self.spec_default_texture()@ == (TextureView {
            handle: DEFAULT_TEXTURE_HANDLE,
            dimensions: (1u16, 1u16),
            min_filter: SamplerFilter::Linear,
            max_filter: SamplerFilter::Linear,
            pixels: seq![255u8, 255u8, 255u8, 255u8],
        })
        &&& self.spec_fullscreen_quad().spec_handle() == FULLSCREEN_QUAD_HANDLE
        &&& is_quad(self.spec_fullscreen_quad().vertices(), MINUS_ONE, ONE)
        &&& self.spec_fullscreen_quad().indices() == seq![0u16, 1u16, 2u16, 2u16, 1u16, 3u16]
    }

    /// A fresh window of the given size and settings.
    pub fn new(width: u16, height: u16, title: &'static str, vsync: bool) -> (window: Window)
        ensures
            window.fresh(width, height, title, vsync),
    {
        let mut white_pixel: Vec<u8> = Vec::new();
        white_pixel.push(255);
        white_pixel.push(255);
        white_pixel.push(255);
        white_pixel.push(255);
        let default_texture = Texture2D::from_data(DEFAULT_TEXTURE_HANDLE, &white_pixel, 1, 1);
        proof {
            assert(white_pixel@ =~= seq![255u8, 255u8, 255u8, 255u8]);
        }
        let fullscreen_quad = Mesh::create_quad(FULLSCREEN_QUAD_HANDLE, false);
        Window {
            client_width: width,
            client_height: height,
            title,
            vsync,
            key_states: StateTable::new(),
            mouse_states: StateTable::new(),
            old_mouse_pos: ScreenPos { x: 0, y: 0 },
            current_mouse_pos: ScreenPos { x: 0, y: 0 },
            mouse_scroll: Vec::new(),
            default_texture,
            fullscreen_quad,
        }
    }

    pub fn client_width(&self) -> (width: u16)
        ensures
            width == self.size().0,
    {
        self.client_width
    }

    pub fn client_height(&self) -> (height: u16)
        ensures
            height == self.size().1,
    {
        self.client_height
    }

    /// The title the window was made with.
    pub fn title(&self) -> (title: &'static str)
        ensures
            title == self.settings().0,
    {
        self.title
    }

    /// Whether the window was made with vertical sync.
    pub fn vsync(&self) -> (vsync: bool)
        ensures
            vsync == self.settings().1,
    {
        self.vsync
    }

    /// Applies the frame's keyboard events in order. Nothing else changes.
    pub fn handle_key_events(&mut self, events: &Vec<KeyboardInput>)
        ensures
            forall|key: u32|
                final(self).key_state(key) == key_state_after(
                    old(self).key_state(key),
                    key,
                    events@,
                ),
            forall|button: MouseButton|
                final(self).mouse_button_state(button) == old(self).mouse_button_state(button),
            final(self).pointer() == old(self).pointer(),
            final(self).same_fittings(old(self)),
    {
        let mut i: usize = 0;
        while i < events.len()
            invariant
                i <= events@.len(),
                forall|key: u32|
                    self.key_state(key) == key_state_after(
                        old(self).key_state(key),
                        key,
                        events@.take(i as int),
                    ),
                self.mouse_states == old(self).mouse_states,
                self.pointer() == old(self).pointer(),
                self.same_fittings(old(self)),
            decreases events@.len() - i,
        {
            let event = events[i];
            let ghost before = *self;
            self.key_states.apply(event.key, event.pressed);
            proof {
                let seen = events@.take(i + 1);
                assert(seen.drop_last() == events@.take(i as int));
                assert(seen.last() == event);
                assert forall|key: u32|
                    self.key_state(key) == key_state_after(
                        old(self).key_state(key),
                        key,
                        seen,
                    ) by {
                    assert(before.key_state(key) == key_state_after(
                        old(self).key_state(key),
                        key,
                        events@.take(i as int),
                    ));
                }
            }
            i += 1;
        }
        proof {
            assert(events@.take(i as int) == events@);
        }
    }

    /// Applies the frame's mouse events in order: button events move the
    /// button's state, motion moves the cursor, a wheel movement joins the
    /// frame's wheel movements. Nothing else changes.
    pub fn handle_mouse_events(&mut self, events: &Vec<MouseEvent>)
        ensures
            forall|button: MouseButton|
                final(self).mouse_button_state(button) == button_state_after(
                    old(self).mouse_button_state(button),
                    button,
                    events@,
                ),
            final(self).pointer() == old(self).pointer().after_events(events@),
            forall|key: u32| final(self).key_state(key) == old(self).key_state(key),
            final(self).same_fittings(old(self)),
    {
        let mut i: usize = 0;
        while i < events.len()
            invariant
                i <= events@.len(),
                forall|button: MouseButton|
                    self.mouse_button_state(button) == button_state_after(
                        old(self).mouse_button_state(button),
                        button,
                        events@.take(i as int),
                    ),
                self.pointer() == old(self).pointer().after_events(events@.take(i as int)),
                self.key_states == old(self).key_states,
                self.same_fittings(old(self)),
            decreases events@.len() - i,
        {
            let event = events[i];
            let ghost before = *self;
            let ghost seen = events@.take(i + 1);
            proof {
                assert(seen.drop_last() == events@.take(i as int));
                assert(seen.last() == event);
            }
            match event.state {
                MouseState::Moved => {
                    self.old_mouse_pos = self.current_mouse_pos;
                    self.current_mouse_pos = event.screen_pos;
                },
                MouseState::Scroll => {
                    self.mouse_scroll.push(event.scroll);
                },
                MouseState::Pressed => {
                    self.mouse_states.apply(event.button.code(), true);
                },
                MouseState::Released => {
                    self.mouse_states.apply(event.button.code(), false);
                },
                _ => {},
            }
            proof {
                assert forall|button: MouseButton|
                    self.mouse_button_state(button) == button_state_after(
                        old(self).mouse_button_state(button),
                        button,
                        seen,
                    ) by {
                    assert(before.mouse_button_state(button) == button_state_after(
                        old(self).mouse_button_state(button),
                        button,
                        events@.take(i as int),
                    ));
                    assert(button.code_spec() == event.button.code_spec() ==> button
                        == event.button);
                }
            }
            i += 1;
        }
        proof {
            assert(events@.take(i as int) == events@);
        }
    }

    /// Starts a frame: `Pressed` becomes `Down` and `Released` becomes `Up`
    /// for every key and button, the wheel movements are cleared, and the
    /// cursor's old position catches up with its current one.
    pub fn reset_input_states(&mut self)
        ensures
            forall|key: u32| final(self).key_state(key) == old(self).key_state(key).decayed(),
            forall|button: MouseButton|
                final(self).mouse_button_state(button) == old(self).mouse_button_state(
                    button,
                ).decayed(),
            final(self).pointer() == old(self).pointer().reset(),
            final(self).same_fittings(old(self)),
    {
        self.key_states.decay_all();
        self.mouse_states.decay_all();
        self.mouse_scroll = Vec::new();
        self.old_mouse_pos = self.current_mouse_pos;
    }

    /// Runs one frame of input: edges decay, then the frame's events are
    /// applied in order. Returns `false` if and only if one of them asked
    /// to close the window.
    pub fn process_events(&mut self, events: &Vec<WindowEvent>) -> (open: bool)
        ensures
            open == !close_requested(events@),
            final(self).follows(old(self), events@),
    {
        let mut closed = false;
        let mut key_events: Vec<KeyboardInput> = Vec::new();
        let mut mouse_events: Vec<MouseEvent> = Vec::new();
        let old_mouse_pos = self.old_mouse_pos;

        self.reset_input_states();

        let mut i: usize = 0;
        while i < events.len()
            invariant
                i <= events@.len(),
                closed == close_requested(events@.take(i as int)),
                key_events@ == key_events_of(events@.take(i as int)),
                mouse_events@ == mouse_events_of(events@.take(i as int), old_mouse_pos),
            decreases events@.len() - i,
        {
            proof {
                let seen = events@.take(i + 1);
                assert(seen.drop_last() == events@.take(i as int));
                assert(seen.last() == events@[i as int]);
                assert(close_requested(seen) == (close_requested(events@.take(i as int))
                    || events@[i as int] == WindowEvent::CloseRequested)) by {
                    if close_requested(seen) {
                        let k = choose|k: int|
                            0 <= k < seen.len() && seen[k] == WindowEvent::CloseRequested;
                        if k < i {
                            assert(events@.take(i as int)[k] == WindowEvent::CloseRequested);
                        }
                    }
                    if close_requested(events@.take(i as int)) {
                        let k = choose|k: int|
                            0 <= k < i && events@.take(i as int)[k] == WindowEvent::CloseRequested;
                        assert(seen[k] == WindowEvent::CloseRequested);
                    }
                    if events@[i as int] == WindowEvent::CloseRequested {
                        assert(seen[i as int] == WindowEvent::CloseRequested);
                    }
                }
            }
            match events[i] {
                WindowEvent::CloseRequested => {
                    closed = true;
                },
                WindowEvent::KeyboardInput(input) => {
                    key_events.push(input);
                },
                WindowEvent::MouseInput { button, pressed } => {
                    mouse_events.push(
                        MouseEvent {
                            button,
                            state: if pressed {
                                MouseState::Pressed
                            } else {
                                MouseState::Released
                            },
                            screen_pos: old_mouse_pos,
                            scroll: 0,
                        },
                    );
                },
                WindowEvent::MouseWheel { scroll } => {
                    mouse_events.push(
                        MouseEvent {
                            button: MouseButton::Left,
                            state: MouseState::Scroll,
                            screen_pos: old_mouse_pos,
                            scroll,
                        },
                    );
                },
                WindowEvent::CursorMoved { x, y } => {
                    mouse_events.push(
                        MouseEvent {
                            button: MouseButton::Left,
                            state: MouseState::Moved,
                            screen_pos: ScreenPos { x, y },
                            scroll: 0,
                        },
                    );
                },
                WindowEvent::Other => {},
            }
            i += 1;
        }
        proof {
            assert(events@.take(i as int) == events@);
        }

        self.handle_key_events(&key_events);
        self.handle_mouse_events(&mouse_events);

        !closed
    }

    /// Whether `key` went down in this frame.
    pub fn is_key_pressed(&self, key: u32) -> (pressed: bool)
        ensures
            pressed == (self.key_state(key) == KeyState::Pressed),
    {
        self.key_states.get(key) == KeyState::Pressed
    }

    /// Whether `key` came up in this frame.
    pub fn is_key_released(&self, key: u32) -> (released: bool)
        ensures
            released == (self.key_state(key) == KeyState::Released),
    {
        self.key_states.get(key) == KeyState::Released
    }

    /// Whether `key` is held, including the frame in which it went down.
    pub fn is_key_down(&self, key: u32) -> (down: bool)
        ensures
            down == (self.key_state(key) == KeyState::Down || self.key_state(key)
                == KeyState::Pressed),
    {
        let state = self.key_states.get(key);
        state == KeyState::Down || state == KeyState::Pressed
    }

    /// Whether `button` went down in this frame.
    pub fn is_mouse_button_pressed(&self, button: MouseButton) -> (pressed: bool)
        ensures
            pressed == (self.mouse_button_state(button) == MouseState::Pressed),
    {
        self.mouse_states.get(button.code()) == KeyState::Pressed
    }

    /// Whether `button` came up in this frame.
    pub fn is_mouse_button_released(&self, button: MouseButton) -> (released: bool)
        ensures
            released == (self.mouse_button_state(button) == MouseState::Released),
    {
        self.mouse_states.get(button.code()) == KeyState::Released
    }

    /// Whether `button` is held, including the frame in which it went down.
    pub fn is_mouse_button_down(&self, button: MouseButton) -> (down: bool)
        ensures
            down == (self.mouse_button_state(button) == MouseState::Down
                || self.mouse_button_state(button) == MouseState::Pressed),
    {
        let state = self.mouse_states.get(button.code());
        state == KeyState::Down || state == KeyState::Pressed
    }

    /// The cursor position, in pixels.
    pub fn mouse_position(&self) -> (pos: ScreenPos)
        ensures
            pos == self.pointer().current_pos,
    {
        self.current_mouse_pos
    }

    /// The cursor position before the frame's last motion, in pixels.
    pub fn previous_mouse_position(&self) -> (pos: ScreenPos)
        ensures
            pos == self.pointer().old_pos,
    {
        self.old_mouse_pos
    }

    /// The wheel movements of this frame, in the order of arrival. Their
    /// sum is the frame's scroll amount; without one it is zero.
    pub fn mouse_scroll(&self) -> (scroll: &Vec<u32>)
        ensures
            scroll@ == self.pointer().scroll,
    {
        &self.mouse_scroll
    }

    /// The texture that fills the sampler slots which a draw call leaves
    /// open: one white texel.
    pub fn default_texture(&self) -> (texture: &Texture2D)
        ensures
            texture == self.spec_default_texture(),
    {
        &self.default_texture
    }

    /// The quad that a fullscreen pass draws.
    pub fn fullscreen_quad(&self) -> (quad: &Mesh)
        ensures
            quad == self.spec_fullscreen_quad(),
    {
        &self.fullscreen_quad
    }

    /// The recording of a frame as it starts at `time`: bound to this
    /// window's default texture and fullscreen quad, blending by alpha
    /// with a white blend colour, and holding the opening clear.
    pub open spec fn frame_start(&self, time: u64) -> CommandBufferView {
        CommandBufferView {
            default_texture: self.spec_default_texture()@,
            fullscreen_quad: self.spec_fullscreen_quad().spec_handle(),
            time,
            blend_mode: BlendMode::Alpha,
            blend_color: white(),
            commands: seq![CommandView::Clear { target: None, color: frame_clear_color() }],
        }
    }

    /// Starts the recording of the frame at `time`.
    pub fn begin_frame(&self, time: u64) -> (buffer: CommandBuffer<'_>)
        ensures
            buffer@ == self.frame_start(time),
    {
        CommandBuffer::new(&self.default_texture, &self.fullscreen_quad, time)
    }
}

} // verus!
