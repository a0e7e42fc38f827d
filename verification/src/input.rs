use vstd::prelude::*;

verus! {

/// Key and button codes, as the kernel's input event codes fix them.
pub const KEY_ESC: u32 = 1;

pub const KEY_C: u32 = 46;

pub const BTN_LEFT: u32 = 0x110;

/// The keys this tool distinguishes; everything else is carried through
/// unidentified.
#[derive(Debug, Clone, Copy, PartialEq, Eq, Structural)]
pub enum Scancode {
    Esc,
    C,
    Unidentified(u32),
}

impl Scancode {
    pub fn from_int(code: u32) -> (r: Scancode)
        ensures
            code == KEY_ESC ==> r is Esc,
            code == KEY_C ==> r is C,
            code != KEY_ESC && code != KEY_C ==> r == Scancode::Unidentified(code),
    {
        match code {
            KEY_ESC => Scancode::Esc,
            KEY_C => Scancode::C,
            _ => Scancode::Unidentified(code),
        }
    }
}

/// The keyboard modifiers the tool reads.
#[derive(Debug, Clone, Copy, PartialEq, Eq, Structural)]
pub struct KeyboardMods {
    pub ctrl: bool,
}

#[derive(Debug, Clone, Copy, PartialEq, Eq, Structural)]
pub enum KeyboardEventKind {
    Press { scancode: Scancode },
    Release { scancode: Scancode },
}

/// One decoded keyboard event, addressed to the surface that had focus.
#[derive(Debug, Clone, Copy, PartialEq, Eq, Structural)]
pub struct KeyboardEvent {
    pub kind: KeyboardEventKind,
    pub surface_id: u64,
    pub mods: KeyboardMods,
}

#[derive(Debug, Clone, Copy, PartialEq, Eq, Structural)]
pub enum PointerButton {
    Left,
    Unidentified(u32),
}

impl PointerButton {
    pub fn from_int(code: u32) -> (r: PointerButton)
        ensures
            code == BTN_LEFT ==> r is Left,
            code != BTN_LEFT ==> r == PointerButton::Unidentified(code),
    {
        match code {
            BTN_LEFT => PointerButton::Left,
            _ => PointerButton::Unidentified(code),
        }
    }
}

/// Which pointer buttons are held.
#[derive(Debug, Clone, Copy, PartialEq, Eq, Structural)]
pub struct PointerButtons {
    pub left: bool,
}

impl Default for PointerButtons {
    fn default() -> (r: PointerButtons)
        ensures
            !r.left,
    {
        PointerButtons { left: false }
    }
}

/// The cursor shapes the crop interaction asks the compositor for.
#[derive(Debug, Clone, Copy, PartialEq, Eq, Structural)]
pub enum CursorShape {
    Default,
    Crosshair,
    Move,
    NwResize,
    NeResize,
    SeResize,
    SwResize,
}

impl CursorShape {
    /// The cursor-theme name of each shape.
    pub fn name(&self) -> (r: &'static str)
        ensures
            self is Default ==> r@ == "default"@,
            self is Crosshair ==> r@ == "crosshair"@,
            self is Move ==> r@ == "move"@,
            self is NwResize ==> r@ == "nw-resize"@,
            self is NeResize ==> r@ == "ne-resize"@,
            self is SeResize ==> r@ == "se-resize"@,
            self is SwResize ==> r@ == "sw-resize"@,
    {
        match self {
            CursorShape::Default => "default",
            CursorShape::Crosshair => "crosshair",
            CursorShape::Move => "move",
            CursorShape::NwResize => "nw-resize",
            CursorShape::NeResize => "ne-resize",
            CursorShape::SeResize => "se-resize",
            CursorShape::SwResize => "sw-resize",
        }
    }
}

/// The protocol interactions whose serials must be replayed later.
#[derive(Debug, Clone, Copy, PartialEq, Eq, Structural)]
pub enum SerialType {
    KeyboardEnter,
    PointerEnter,
}

/// Remembers the most recent serial of each tracked interaction.
#[derive(Debug, Clone, Copy, PartialEq, Eq, Structural)]
pub struct SerialTracker {
    pub keyboard_enter: Option<u32>,
    pub pointer_enter: Option<u32>,
}

impl SerialTracker {
    /// The stored serial for one interaction type.
    pub open spec fn serial_for(self, ty: SerialType) -> Option<u32> {
        match ty {
            SerialType::KeyboardEnter => self.keyboard_enter,
            SerialType::PointerEnter => self.pointer_enter,
        }
    }

    pub fn update_serial(&mut self, ty: SerialType, serial: u32)
        ensures
            final(self).serial_for(ty) == Some(serial),
            forall|other: SerialType|
                other != ty ==> final(self).serial_for(other) == old(self).serial_for(other),
    {
        match ty {
            SerialType::KeyboardEnter => {
                self.keyboard_enter = Some(serial);
            },
            SerialType::PointerEnter => {
                self.pointer_enter = Some(serial);
            },
        }
    }

    pub fn reset_serial(&mut self, ty: SerialType)
        ensures
            final(self).serial_for(ty) is None,
            forall|other: SerialType|
                other != ty ==> final(self).serial_for(other) == old(self).serial_for(other),
    {
        match ty {
            SerialType::KeyboardEnter => {
                self.keyboard_enter = None;
            },
            SerialType::PointerEnter => {
                self.pointer_enter = None;
            },
        }
    }

    pub fn get_serial(&self, ty: SerialType) -> (r: Option<u32>)
        ensures
            r == self.serial_for(ty),
    {
        match ty {
            SerialType::KeyboardEnter => self.keyboard_enter,
            SerialType::PointerEnter => self.pointer_enter,
        }
    }
}

impl Default for SerialTracker {
    fn default() -> (r: SerialTracker)
        ensures
            r.keyboard_enter is None,
            r.pointer_enter is None,
    {
        SerialTracker { keyboard_enter: None, pointer_enter: None }
    }
}

/// What the event loop does in reaction to a keyboard event.
#[derive(Debug, Clone, Copy, PartialEq, Eq, Structural)]
pub enum AppKeyAction {
    /// Escape was pressed: leave the event loop.
    RequestQuit,
    /// Control-C was pressed: run the copy sequence.
    RequestCopy,
    /// Anything else is left to the per-screen collaborators.
    Ignore,
}

/// The event loop's reaction to one keyboard event: escape quits, control-C
/// copies, everything else passes through.
pub fn app_action_for_key(event: &KeyboardEvent) -> (r: AppKeyAction)
    ensures
        r == match event.kind {
            KeyboardEventKind::Press { scancode: Scancode::Esc } => AppKeyAction::RequestQuit,
            KeyboardEventKind::Press { scancode: Scancode::C } => if event.mods.ctrl {
                AppKeyAction::RequestCopy
            } else {
                AppKeyAction::Ignore
            },
            _ => AppKeyAction::Ignore,
        },
{
    match event.kind {
        KeyboardEventKind::Press { scancode: Scancode::Esc } => AppKeyAction::RequestQuit,
        KeyboardEventKind::Press { scancode: Scancode::C } => {
            if event.mods.ctrl {
                AppKeyAction::RequestCopy
            } else {
                AppKeyAction::Ignore
            }
        },
        _ => AppKeyAction::Ignore,
    }
}

/// The identity of a surface, as used to match events to screens.
pub fn get_surface_id(surface: u64) -> (r: u64)
    ensures
        r == surface,
{
    surface
}

} // verus!
