use vstd::prelude::*;

use crate::keys::{convert_scancode, key_entry};

verus! {

/// The mouse position and button states at one moment.
#[derive(Clone, Copy, Debug, PartialEq, Eq, Structural)]
pub struct MouseEvent {
    pub x: i32,
    pub y: i32,
    pub left_button: bool,
    pub middle_button: bool,
    pub right_button: bool,
}

/// A key going down or up.
#[derive(Clone, Copy, Debug, PartialEq, Eq, Structural)]
pub struct KeyEvent {
    /// The character typed, `'\0'` where the key prints nothing.
    pub character: char,
    /// The logical key code (one of the `K_` constants).
    pub scancode: u8,
    pub pressed: bool,
}

/// A request to close the window.
#[derive(Clone, Copy, Debug, PartialEq, Eq, Structural)]
pub struct QuitEvent;

/// An input event.
#[derive(Clone, Copy, Debug, PartialEq, Eq, Structural)]
pub enum Event {
    Mouse(MouseEvent),
    Key(KeyEvent),
    Quit,
}

impl MouseEvent {
    pub fn to_event(&self) -> (e: Event)
        ensures
            e == Event::Mouse(*self),
    {
        Event::Mouse(*self)
    }
}

impl KeyEvent {
    pub fn to_event(&self) -> (e: Event)
        ensures
            e == Event::Key(*self),
    {
        Event::Key(*self)
    }
}

impl QuitEvent {
    pub fn to_event(&self) -> (e: Event)
        ensures
            e == Event::Quit,
    {
        Event::Quit
    }
}

/// The kinds of native input event that translation tells apart; key events
/// carry the native scancode number, if the key has one.
#[derive(Clone, Copy, Debug, PartialEq, Eq, Structural)]
pub enum NativeEvent {
    MouseMotion,
    MouseButtonDown,
    MouseButtonUp,
    KeyDown { scancode: Option<i32> },
    KeyUp { scancode: Option<i32> },
    Quit,
    Other,
}

/// Native modifier bits: left shift, right shift and caps lock.
pub const MOD_LSHIFT: u16 = 0x0001;
pub const MOD_RSHIFT: u16 = 0x0002;
pub const MOD_CAPS: u16 = 0x2000;

/// Whether the native modifier state selects the shifted characters: either
/// shift key or caps lock is active.
pub open spec fn shift_in(mods: u16) -> bool {
    mods & MOD_LSHIFT != 0 || mods & MOD_RSHIFT != 0 || mods & MOD_CAPS != 0
}

pub fn shift_held(mods: u16) -> (r: bool)
    ensures
        r == shift_in(mods),
{
    mods & MOD_CAPS != 0 || mods & MOD_LSHIFT != 0 || mods & MOD_RSHIFT != 0
}

/// The key event for a scancode, if the key is known.
pub open spec fn key_events(scancode: Option<i32>, shift: bool, pressed: bool) -> Seq<Event> {
    match scancode {
        Some(code) => match key_entry(code, shift) {
            Some(entry) => seq![
                Event::Key(KeyEvent { character: entry.0, scancode: entry.1, pressed: pressed }),
            ],
            None => seq![],
        },
        None => seq![],
    }
}

/// The events that one native event translates to, given the mouse state and
/// the modifier bits at the time of translation.
pub open spec fn translation(event: NativeEvent, mouse: MouseEvent, mods: u16) -> Seq<Event> {
    match event {
        NativeEvent::MouseMotion => seq![Event::Mouse(mouse)],
        NativeEvent::MouseButtonDown => seq![Event::Mouse(mouse)],
        NativeEvent::MouseButtonUp => seq![Event::Mouse(mouse)],
        NativeEvent::KeyDown { scancode } => key_events(scancode, shift_in(mods), true),
        NativeEvent::KeyUp { scancode } => key_events(scancode, shift_in(mods), false),
        NativeEvent::Quit => seq![Event::Quit],
        NativeEvent::Other => seq![],
    }
}

fn key_event_list(scancode: Option<i32>, shift: bool, pressed: bool) -> (r: Vec<Event>)
    ensures
        r@ == key_events(scancode, shift, pressed),
{
    let mut events: Vec<Event> = Vec::new();
    if let Some(code) = convert_scancode(scancode, shift) {
        events.push(KeyEvent { character: code.0, scancode: code.1, pressed: pressed }.to_event());
    }
    events
}

/// Translates one native event: every mouse event gives the current mouse
/// state, a key event gives a key event if its scancode is known, a quit
/// request gives `Quit`, and anything else gives nothing.
pub fn convert_event(event: NativeEvent, mouse: MouseEvent, mods: u16) -> (r: Vec<Event>)
    ensures
        r@ == translation(event, mouse, mods),
        r@.len() <= 1,
{
    let shift = shift_held(mods);
    let mut events: Vec<Event> = Vec::new();
    match event {
        NativeEvent::MouseMotion => events.push(mouse.to_event()),
        NativeEvent::MouseButtonDown => events.push(mouse.to_event()),
        NativeEvent::MouseButtonUp => events.push(mouse.to_event()),
        NativeEvent::KeyDown { scancode } => events = key_event_list(scancode, shift, true),
        NativeEvent::KeyUp { scancode } => events = key_event_list(scancode, shift, false),
        NativeEvent::Quit => events.push(QuitEvent.to_event()),
        NativeEvent::Other => {},
    }
    assert(events@ =~= translation(event, mouse, mods));
    events
}

} // verus!
