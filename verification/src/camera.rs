//! Input decisions of the editor-style fly camera: when the cursor is grabbed, and in
//! which direction and at which speed setting the keyboard moves the camera.

use vstd::prelude::*;

verus! {

/// How the window holds the mouse cursor.
#[derive(Clone, Copy, Debug, PartialEq, Eq, Structural)]
pub enum GrabMode {
    /// The cursor moves freely.
    Free,
    /// The cursor stays inside the window.
    Confined,
    /// The cursor is locked in place.
    Locked,
}

/// The cursor settings of the primary window.
#[derive(Clone, Copy, Debug, PartialEq, Eq, Structural)]
pub struct CursorState {
    pub grab: GrabMode,
    pub visible: bool,
}

/// The writes to the cursor settings that one frame decides: a field is `Some` only where
/// its value changes, so that an unchanged window is not marked as modified.
#[derive(Clone, Copy, Debug, PartialEq, Eq, Structural)]
pub struct CursorUpdate {
    pub grab: Option<GrabMode>,
    pub visible: Option<bool>,
}

/// The cursor settings wanted while the right mouse button is held (`lock`) or not:
/// locked and hidden, or free and shown.
pub open spec fn cursor_target(lock: bool) -> CursorState {
    if lock {
        CursorState { grab: GrabMode::Locked, visible: false }
    } else {
        CursorState { grab: GrabMode::Free, visible: true }
    }
}

/// The cursor settings after the writes of `update`.
pub open spec fn apply_cursor_update(state: CursorState, update: CursorUpdate) -> CursorState {
    CursorState {
        grab: match update.grab {
            Some(g) => g,
            None => state.grab,
        },
        visible: match update.visible {
            Some(v) => v,
            None => state.visible,
        },
    }
}

/// The cursor writes of one frame. While the user interface wants the pointer or the
/// keyboard (`ui_busy`) nothing is written; otherwise the cursor is locked and hidden
/// while the right mouse button is held and freed and shown when it is not, each field
/// written only where it differs from `current`.
pub open spec fn decided_cursor_update(ui_busy: bool, right_pressed: bool, current: CursorState) -> CursorUpdate {
    let target = cursor_target(right_pressed);
    if ui_busy {
        CursorUpdate { grab: None, visible: None }
    } else {
        CursorUpdate {
            grab: if current.grab == target.grab {
                None
            } else {
                Some(target.grab)
            },
            visible: if current.visible == target.visible {
                None
            } else {
                Some(target.visible)
            },
        }
    }
}

/// Decides the cursor writes of one frame from whether the user interface wants the
/// pointer or the keyboard, whether the right mouse button is held, and the current
/// cursor settings.
pub fn cursor_update(
    ui_wants_pointer: bool,
    ui_wants_keyboard: bool,
    right_pressed: bool,
    current: CursorState,
) -> (update: CursorUpdate)
    ensures
        update == decided_cursor_update(ui_wants_pointer || ui_wants_keyboard, right_pressed, current),
        ui_wants_pointer || ui_wants_keyboard ==> update == (CursorUpdate { grab: None, visible: None }),
        !(ui_wants_pointer || ui_wants_keyboard) ==> match update.grab {
            Some(g) => g,
            None => current.grab,
        } == (if right_pressed {
            GrabMode::Locked
        } else {
            GrabMode::Free
        }),
        !(ui_wants_pointer || ui_wants_keyboard) ==> match update.visible {
            Some(v) => v,
            None => current.visible,
        } == !right_pressed,
        update.grab matches Some(g) ==> g != current.grab,
        update.visible matches Some(v) ==> v != current.visible,
{
    if ui_wants_pointer || ui_wants_keyboard {
        return CursorUpdate { grab: None, visible: None };
    }
    let mut update = CursorUpdate { grab: None, visible: None };
    if right_pressed {
        if current.grab != GrabMode::Locked {
            update.grab = Some(GrabMode::Locked);
        }
        if current.visible {
            update.visible = Some(false);
        }
    } else {
        if current.grab != GrabMode::Free {
            update.grab = Some(GrabMode::Free);
        }
        if !current.visible {
            update.visible = Some(true);
        }
    }
    update
}

/// When the user interface does not hold the input, applying the writes of a frame gives
/// the cursor the settings wanted for the right mouse button; and whatever the user
/// interface holds, deciding again on the settings so reached writes nothing.
pub proof fn lemma_cursor_update_settles(ui_busy: bool, right_pressed: bool, current: CursorState)
    ensures
        !ui_busy ==> apply_cursor_update(
            current,
            decided_cursor_update(ui_busy, right_pressed, current),
        ) == cursor_target(right_pressed),
        decided_cursor_update(
            ui_busy,
            right_pressed,
            apply_cursor_update(current, decided_cursor_update(ui_busy, right_pressed, current)),
        ) == (CursorUpdate { grab: None, visible: None }),
{
}

/// What a frame decides for the cursor, in terms of the inputs alone: while the user
/// interface wants the pointer or the keyboard nothing is written; otherwise, after the
/// writes, the cursor is locked and hidden exactly while the right mouse button is held
/// and free and shown otherwise; and a field is only ever written with a new value.
pub proof fn lemma_cursor_decision(ui_busy: bool, right_pressed: bool, current: CursorState)
    ensures
        ui_busy ==> decided_cursor_update(ui_busy, right_pressed, current) == (CursorUpdate {
            grab: None,
            visible: None,
        }),
        !ui_busy ==> match decided_cursor_update(ui_busy, right_pressed, current).grab {
            Some(g) => g,
            None => current.grab,
        } == (if right_pressed {
            GrabMode::Locked
        } else {
            GrabMode::Free
        }),
        !ui_busy ==> match decided_cursor_update(ui_busy, right_pressed, current).visible {
            Some(v) => v,
            None => current.visible,
        } == !right_pressed,
        decided_cursor_update(ui_busy, right_pressed, current).grab matches Some(g) ==> g
            != current.grab,
        decided_cursor_update(ui_busy, right_pressed, current).visible matches Some(v) ==> v
            != current.visible,
{
}

/// The state of the keys that move the camera.
#[derive(Clone, Copy, Debug, PartialEq, Eq, Structural)]
pub struct MoveKeys {
    /// W: forward.
    pub forward: bool,
    /// S: backward.
    pub backward: bool,
    /// A: left.
    pub left: bool,
    /// D: right.
    pub right: bool,
    /// E: up.
    pub up: bool,
    /// Space: up as well.
    pub space: bool,
    /// Q: down.
    pub down: bool,
    pub shift_left: bool,
    pub shift_right: bool,
    pub control_left: bool,
    pub control_right: bool,
}

/// What the keys ask of the camera in one frame: a direction in the camera's frame
/// (`x` to the right, `y` up, `z` forward), each component -1, 0 or 1, and whether the
/// speed is raised (a Shift key) or lowered (a Control key).
#[derive(Clone, Copy, Debug, PartialEq, Eq, Structural)]
pub struct MoveIntent {
    pub x: i8,
    pub y: i8,
    pub z: i8,
    pub fast: bool,
    pub slow: bool,
}

/// One axis of movement: +1 for the positive key, -1 for the negative key, 0 for both
/// or neither.
pub open spec fn key_axis(positive: bool, negative: bool) -> int {
    (if positive {
        1int
    } else {
        0int
    }) - (if negative {
        1int
    } else {
        0int
    })
}

/// The movement that the keys ask for: D and A along `x`, E or Space and Q along `y`,
/// W and S along `z`; Shift raises the speed and Control lowers it.
pub fn move_intent(keys: &MoveKeys) -> (intent: MoveIntent)
    ensures
        intent.x == key_axis(keys.right, keys.left),
        intent.y == key_axis(keys.up || keys.space, keys.down),
        intent.z == key_axis(keys.forward, keys.backward),
        intent.fast == (keys.shift_left || keys.shift_right),
        intent.slow == (keys.control_left || keys.control_right),
        intent.x == 1 <==> (keys.right && !keys.left),
        intent.x == -1 <==> (keys.left && !keys.right),
        intent.x == 0 <==> (keys.left == keys.right),
        intent.y == 1 <==> ((keys.up || keys.space) && !keys.down),
        intent.y == -1 <==> (keys.down && !(keys.up || keys.space)),
        intent.y == 0 <==> (keys.down == (keys.up || keys.space)),
        intent.z == 1 <==> (keys.forward && !keys.backward),
        intent.z == -1 <==> (keys.backward && !keys.forward),
        intent.z == 0 <==> (keys.forward == keys.backward),
{
    let mut x: i8 = 0;
    let mut y: i8 = 0;
    let mut z: i8 = 0;
    if keys.forward {
        z = z + 1;
    }
    if keys.backward {
        z = z - 1;
    }
    if keys.left {
        x = x - 1;
    }
    if keys.right {
        x = x + 1;
    }
    if keys.up || keys.space {
        y = y + 1;
    }
    if keys.down {
        y = y - 1;
    }
    MoveIntent {
        x,
        y,
        z,
        fast: keys.shift_left || keys.shift_right,
        slow: keys.control_left || keys.control_right,
    }
}

impl MoveIntent {
    /// No key asks for movement (the camera then stays where it is).
    pub fn is_still(&self) -> (still: bool)
        ensures
            still == (self.x == 0 && self.y == 0 && self.z == 0),
    {
        self.x == 0 && self.y == 0 && self.z == 0
    }
}

/// Each axis of movement is -1, 0 or 1: +1 exactly when only the positive key is held,
/// -1 exactly when only the negative key is held, and the two keys cancel each other.
pub proof fn lemma_key_axis(positive: bool, negative: bool)
    ensures
        key_axis(positive, negative) == 1 <==> (positive && !negative),
        key_axis(positive, negative) == -1 <==> (negative && !positive),
        -1 <= key_axis(positive, negative) <= 1,
        positive == negative ==> key_axis(positive, negative) == 0,
        key_axis(positive, negative) == -key_axis(negative, positive),
{
}

} // verus!
