use terrain_editor::camera::{
    cursor_update, move_intent, CursorState, CursorUpdate, GrabMode, MoveIntent, MoveKeys,
};

fn no_keys() -> MoveKeys {
    MoveKeys {
        forward: false,
        backward: false,
        left: false,
        right: false,
        up: false,
        space: false,
        down: false,
        shift_left: false,
        shift_right: false,
        control_left: false,
        control_right: false,
    }
}

fn apply(state: CursorState, update: CursorUpdate) -> CursorState {
    CursorState {
        grab: update.grab.unwrap_or(state.grab),
        visible: update.visible.unwrap_or(state.visible),
    }
}

const FREE_SHOWN: CursorState = CursorState { grab: GrabMode::Free, visible: true };
const LOCKED_HIDDEN: CursorState = CursorState { grab: GrabMode::Locked, visible: false };

#[test]
fn right_button_locks_and_hides() {
    let u = cursor_update(false, false, true, FREE_SHOWN);
    assert_eq!(u, CursorUpdate { grab: Some(GrabMode::Locked), visible: Some(false) });
}

#[test]
fn release_frees_and_shows() {
    let u = cursor_update(false, false, false, LOCKED_HIDDEN);
    assert_eq!(u, CursorUpdate { grab: Some(GrabMode::Free), visible: Some(true) });
}

#[test]
fn confined_cursor_is_freed() {
    let current = CursorState { grab: GrabMode::Confined, visible: true };
    let u = cursor_update(false, false, false, current);
    assert_eq!(u, CursorUpdate { grab: Some(GrabMode::Free), visible: None });
}

#[test]
fn unchanged_settings_are_not_written() {
    assert_eq!(
        cursor_update(false, false, true, LOCKED_HIDDEN),
        CursorUpdate { grab: None, visible: None }
    );
    assert_eq!(
        cursor_update(false, false, false, FREE_SHOWN),
        CursorUpdate { grab: None, visible: None }
    );
}

#[test]
fn busy_interface_blocks_cursor_changes() {
    let none = CursorUpdate { grab: None, visible: None };
    assert_eq!(cursor_update(true, false, true, FREE_SHOWN), none);
    assert_eq!(cursor_update(false, true, false, LOCKED_HIDDEN), none);
}

#[test]
fn second_decision_writes_nothing() {
    for right in [false, true] {
        for grab in [GrabMode::Free, GrabMode::Confined, GrabMode::Locked] {
            for visible in [false, true] {
                let s = CursorState { grab, visible };
                let after = apply(s, cursor_update(false, false, right, s));
                assert_eq!(after, if right { LOCKED_HIDDEN } else { FREE_SHOWN });
                assert_eq!(
                    cursor_update(false, false, right, after),
                    CursorUpdate { grab: None, visible: None }
                );
            }
        }
    }
}

#[test]
fn no_key_means_no_movement() {
    let i = move_intent(&no_keys());
    assert_eq!(i, MoveIntent { x: 0, y: 0, z: 0, fast: false, slow: false });
    assert!(i.is_still());
}

#[test]
fn each_key_moves_along_its_axis() {
    let mut k = no_keys();
    k.forward = true;
    assert_eq!((move_intent(&k).x, move_intent(&k).y, move_intent(&k).z), (0, 0, 1));
    let mut k = no_keys();
    k.backward = true;
    assert_eq!((move_intent(&k).x, move_intent(&k).y, move_intent(&k).z), (0, 0, -1));
    let mut k = no_keys();
    k.left = true;
    assert_eq!((move_intent(&k).x, move_intent(&k).y, move_intent(&k).z), (-1, 0, 0));
    let mut k = no_keys();
    k.right = true;
    assert_eq!((move_intent(&k).x, move_intent(&k).y, move_intent(&k).z), (1, 0, 0));
    let mut k = no_keys();
    k.up = true;
    assert_eq!((move_intent(&k).x, move_intent(&k).y, move_intent(&k).z), (0, 1, 0));
    let mut k = no_keys();
    k.space = true;
    assert_eq!((move_intent(&k).x, move_intent(&k).y, move_intent(&k).z), (0, 1, 0));
    let mut k = no_keys();
    k.down = true;
    assert_eq!((move_intent(&k).x, move_intent(&k).y, move_intent(&k).z), (0, -1, 0));
}

#[test]
fn opposite_keys_cancel() {
    let mut k = no_keys();
    k.forward = true;
    k.backward = true;
    k.left = true;
    k.right = true;
    k.space = true;
    k.down = true;
    let i = move_intent(&k);
    assert!(i.is_still());
    let mut k = no_keys();
    k.up = true;
    k.space = true;
    assert_eq!(move_intent(&k).y, 1);
}

#[test]
fn modifiers_are_reported() {
    let mut k = no_keys();
    k.shift_right = true;
    k.control_left = true;
    let i = move_intent(&k);
    assert!(i.fast && i.slow);
    assert!(i.is_still());
    let mut k = no_keys();
    k.shift_left = true;
    k.forward = true;
    let i = move_intent(&k);
    assert!(i.fast && !i.slow && !i.is_still());
}
