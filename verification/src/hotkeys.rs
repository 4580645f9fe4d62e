//! The overlay's global hotkeys: their identifiers, the keys they are bound
//! to (all with Ctrl), and the command each one stands for.

use vstd::prelude::*;

verus! {

/// Ctrl+B: show or hide the overlay.
pub const HOTKEY_ID_TOGGLE: i32 = 1;

/// Ctrl+H: capture the screen.
pub const HOTKEY_ID_CAPTURE: i32 = 2;

/// Ctrl+Enter: send the capture for analysis.
pub const HOTKEY_ID_SEND: i32 = 3;

/// Ctrl+R: start over.
pub const HOTKEY_ID_START_OVER: i32 = 4;

/// Ctrl+Left: move the overlay left.
pub const HOTKEY_ID_MOVE_LEFT: i32 = 5;

/// Ctrl+Right: move the overlay right.
pub const HOTKEY_ID_MOVE_RIGHT: i32 = 6;

/// Ctrl+Up: move the overlay up.
pub const HOTKEY_ID_MOVE_UP: i32 = 7;

/// Ctrl+Down: move the overlay down.
pub const HOTKEY_ID_MOVE_DOWN: i32 = 8;

/// Ctrl+Plus: make the overlay larger.
pub const HOTKEY_ID_RESIZE_LARGER: i32 = 9;

/// Ctrl+Minus: make the overlay smaller.
pub const HOTKEY_ID_RESIZE_SMALLER: i32 = 10;

/// Pixels the overlay moves per arrow hotkey.
pub const MOVE_STEP: i32 = 10;

/// Pixels the overlay's width and height change per resize hotkey.
pub const RESIZE_STEP: i32 = 20;

/// What a hotkey asks of the overlay.
#[derive(Clone, Copy, Debug, PartialEq, Eq, Structural)]
pub enum Command {
    ToggleVisibility,
    Capture,
    Send,
    StartOver,
    Move { dx: i32, dy: i32 },
    Resize { dw: i32, dh: i32 },
}

/// The key that, together with Ctrl, triggers a hotkey.
#[derive(Clone, Copy, Debug, PartialEq, Eq, Structural)]
pub enum Key {
    B,
    H,
    Enter,
    R,
    Left,
    Right,
    Up,
    Down,
    Plus,
    Minus,
}

/// A hotkey to register: its identifier, its key, and whether the overlay
/// cannot run without it (a failed registration of such a key is fatal,
/// of any other a warning).
#[derive(Clone, Copy, Debug, PartialEq, Eq, Structural)]
pub struct HotkeyBinding {
    pub id: i32,
    pub key: Key,
    pub required: bool,
}

/// The command bound to hotkey `id`, if any.
pub open spec fn command_of(id: i32) -> Option<Command> {
    if id == HOTKEY_ID_TOGGLE {
        Some(Command::ToggleVisibility)
    } else if id == HOTKEY_ID_CAPTURE {
        Some(Command::Capture)
    } else if id == HOTKEY_ID_SEND {
        Some(Command::Send)
    } else if id == HOTKEY_ID_START_OVER {
        Some(Command::StartOver)
    } else if id == HOTKEY_ID_MOVE_LEFT {
        Some(Command::Move { dx: (-MOVE_STEP) as i32, dy: 0 })
    } else if id == HOTKEY_ID_MOVE_RIGHT {
        Some(Command::Move { dx: MOVE_STEP, dy: 0 })
    } else if id == HOTKEY_ID_MOVE_UP {
        Some(Command::Move { dx: 0, dy: (-MOVE_STEP) as i32 })
    } else if id == HOTKEY_ID_MOVE_DOWN {
        Some(Command::Move { dx: 0, dy: MOVE_STEP })
    } else if id == HOTKEY_ID_RESIZE_LARGER {
        Some(Command::Resize { dw: RESIZE_STEP, dh: RESIZE_STEP })
    } else if id == HOTKEY_ID_RESIZE_SMALLER {
        Some(Command::Resize { dw: (-RESIZE_STEP) as i32, dh: (-RESIZE_STEP) as i32 })
    } else {
        None
    }
}

/// The command that a press of hotkey `id` stands for; `None` for an
/// identifier the overlay never registered.
pub fn command_for_hotkey(id: i32) -> (command: Option<Command>)
    ensures
        command == command_of(id),
{
    if id == HOTKEY_ID_TOGGLE {
        Some(Command::ToggleVisibility)
    } else if id == HOTKEY_ID_CAPTURE {
        Some(Command::Capture)
    } else if id == HOTKEY_ID_SEND {
        Some(Command::Send)
    } else if id == HOTKEY_ID_START_OVER {
        Some(Command::StartOver)
    } else if id == HOTKEY_ID_MOVE_LEFT {
        Some(Command::Move { dx: -MOVE_STEP, dy: 0 })
    } else if id == HOTKEY_ID_MOVE_RIGHT {
        Some(Command::Move { dx: MOVE_STEP, dy: 0 })
    } else if id == HOTKEY_ID_MOVE_UP {
        Some(Command::Move { dx: 0, dy: -MOVE_STEP })
    } else if id == HOTKEY_ID_MOVE_DOWN {
        Some(Command::Move { dx: 0, dy: MOVE_STEP })
    } else if id == HOTKEY_ID_RESIZE_LARGER {
        Some(Command::Resize { dw: RESIZE_STEP, dh: RESIZE_STEP })
    } else if id == HOTKEY_ID_RESIZE_SMALLER {
        Some(Command::Resize { dw: -RESIZE_STEP, dh: -RESIZE_STEP })
    } else {
        None
    }
}

/// The hotkeys the overlay registers, in the order it registers them.
pub open spec fn binding_table() -> Seq<HotkeyBinding> {
    seq![
        HotkeyBinding { id: HOTKEY_ID_TOGGLE, key: Key::B, required: true },
        HotkeyBinding { id: HOTKEY_ID_CAPTURE, key: Key::H, required: false },
        HotkeyBinding { id: HOTKEY_ID_SEND, key: Key::Enter, required: false },
        HotkeyBinding { id: HOTKEY_ID_START_OVER, key: Key::R, required: false },
        HotkeyBinding { id: HOTKEY_ID_MOVE_LEFT, key: Key::Left, required: false },
        HotkeyBinding { id: HOTKEY_ID_MOVE_RIGHT, key: Key::Right, required: false },
        HotkeyBinding { id: HOTKEY_ID_MOVE_UP, key: Key::Up, required: false },
        HotkeyBinding { id: HOTKEY_ID_MOVE_DOWN, key: Key::Down, required: false },
        HotkeyBinding { id: HOTKEY_ID_RESIZE_LARGER, key: Key::Plus, required: false },
        HotkeyBinding { id: HOTKEY_ID_RESIZE_SMALLER, key: Key::Minus, required: false },
    ]
}

/// The hotkeys to register at start-up and to unregister on exit.
pub fn hotkey_bindings() -> (bindings: Vec<HotkeyBinding>)
    ensures
        bindings@ == binding_table(),
{
    let bindings = vec![
        HotkeyBinding { id: HOTKEY_ID_TOGGLE, key: Key::B, required: true },
        HotkeyBinding { id: HOTKEY_ID_CAPTURE, key: Key::H, required: false },
        HotkeyBinding { id: HOTKEY_ID_SEND, key: Key::Enter, required: false },
        HotkeyBinding { id: HOTKEY_ID_START_OVER, key: Key::R, required: false },
        HotkeyBinding { id: HOTKEY_ID_MOVE_LEFT, key: Key::Left, required: false },
        HotkeyBinding { id: HOTKEY_ID_MOVE_RIGHT, key: Key::Right, required: false },
        HotkeyBinding { id: HOTKEY_ID_MOVE_UP, key: Key::Up, required: false },
        HotkeyBinding { id: HOTKEY_ID_MOVE_DOWN, key: Key::Down, required: false },
        HotkeyBinding { id: HOTKEY_ID_RESIZE_LARGER, key: Key::Plus, required: false },
        HotkeyBinding { id: HOTKEY_ID_RESIZE_SMALLER, key: Key::Minus, required: false },
    ];
    assert(bindings@ =~= binding_table());
    bindings
}

/// Every registered hotkey has a command, no two share an identifier or a
/// key, only Ctrl+B is required, and an identifier has a command exactly when
/// it is registered.
pub proof fn lemma_bindings_match_commands()
    ensures
        forall|i: int|
            0 <= i < binding_table().len() ==> (#[trigger] command_of(binding_table()[i].id)) is Some,
        forall|i: int, j: int|
            0 <= i < binding_table().len() && 0 <= j < binding_table().len() && i != j ==> {
                &&& binding_table()[i].id != binding_table()[j].id
                &&& binding_table()[i].key != binding_table()[j].key
            },
        forall|i: int|
            0 <= i < binding_table().len() ==> (binding_table()[i].required
                <==> binding_table()[i].key == Key::B),
        forall|id: i32|
            (#[trigger] command_of(id)) is Some <==> exists|i: int|
                0 <= i < binding_table().len() && binding_table()[i].id == id,
{
    let t = binding_table();
    assert forall|id: i32| (#[trigger] command_of(id)) is Some implies exists|i: int|
        0 <= i < t.len() && t[i].id == id by {
        let i: int = (id - 1) as int;
        assert(t[i].id == id);
    }
}

/// The two arrow hotkeys of an axis move by opposite amounts, and the two
/// resize hotkeys change the size by opposite amounts.
pub proof fn lemma_opposite_hotkeys_cancel()
    ensures
        command_of(HOTKEY_ID_MOVE_LEFT)->Some_0->dx + command_of(HOTKEY_ID_MOVE_RIGHT)->Some_0->dx
            == 0,
        command_of(HOTKEY_ID_MOVE_LEFT)->Some_0->Move_dy == 0,
        command_of(HOTKEY_ID_MOVE_RIGHT)->Some_0->Move_dy == 0,
        command_of(HOTKEY_ID_MOVE_UP)->Some_0->Move_dy + command_of(HOTKEY_ID_MOVE_DOWN)->Some_0->Move_dy
            == 0,
        command_of(HOTKEY_ID_MOVE_UP)->Some_0->dx == 0,
        command_of(HOTKEY_ID_MOVE_DOWN)->Some_0->dx == 0,
        command_of(HOTKEY_ID_RESIZE_LARGER)->Some_0->dw + command_of(
            HOTKEY_ID_RESIZE_SMALLER,
        )->Some_0->dw == 0,
        command_of(HOTKEY_ID_RESIZE_LARGER)->Some_0->dh + command_of(
            HOTKEY_ID_RESIZE_SMALLER,
        )->Some_0->dh == 0,
{
}

/// Each hotkey is bound to the key its command is documented with: Ctrl+B
/// toggles, Ctrl+H captures, Ctrl+Enter sends, Ctrl+R starts over, the
/// arrows move the window their way, Ctrl+Plus grows it, Ctrl+Minus shrinks it.
pub proof fn lemma_bindings_use_documented_keys()
    ensures
        forall|i: int|
            #![trigger binding_table()[i]]
            0 <= i < binding_table().len() ==> {
                let b = binding_table()[i];
                &&& command_of(b.id) == Some(Command::ToggleVisibility) <==> b.key == Key::B
                &&& command_of(b.id) == Some(Command::Capture) <==> b.key == Key::H
                &&& command_of(b.id) == Some(Command::Send) <==> b.key == Key::Enter
                &&& command_of(b.id) == Some(Command::StartOver) <==> b.key == Key::R
                &&& command_of(b.id) == Some(Command::Move { dx: -10i32, dy: 0 }) <==> b.key
                    == Key::Left
                &&& command_of(b.id) == Some(Command::Move { dx: 10, dy: 0 }) <==> b.key
                    == Key::Right
                &&& command_of(b.id) == Some(Command::Move { dx: 0, dy: -10i32 }) <==> b.key
                    == Key::Up
                &&& command_of(b.id) == Some(Command::Move { dx: 0, dy: 10 }) <==> b.key
                    == Key::Down
                &&& command_of(b.id) == Some(Command::Resize { dw: 20, dh: 20 }) <==> b.key
                    == Key::Plus
                &&& command_of(b.id) == Some(Command::Resize { dw: -20i32, dh: -20i32 }) <==> b.key
                    == Key::Minus
            },
{
}

} // verus!
