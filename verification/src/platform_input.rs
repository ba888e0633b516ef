//! How key events, mouse buttons and gamepad readings become game input.
use vstd::prelude::*;
use crate::game_api::{
    ButtonState, ControllerButton, ControllerInput, Input, MouseButton, CONTROLLER_BUTTON_COUNT,
    CONTROLLER_COUNT,
};
use crate::win32::{
    VK_A, VK_D, VK_DOWN, VK_F11, VK_F4, VK_LEFT, VK_RIGHT, VK_S, VK_SHIFT, VK_SPACE, VK_UP, VK_W,
    XINPUT_GAMEPAD_A, XINPUT_GAMEPAD_B, XINPUT_GAMEPAD_DPAD_DOWN, XINPUT_GAMEPAD_DPAD_LEFT,
    XINPUT_GAMEPAD_DPAD_RIGHT, XINPUT_GAMEPAD_DPAD_UP, XINPUT_GAMEPAD_LEFT_SHOULDER,
    XINPUT_GAMEPAD_LEFT_THUMB_DEADZONE, XINPUT_GAMEPAD_RIGHT_SHOULDER,
    XINPUT_GAMEPAD_RIGHT_THUMB_DEADZONE, XINPUT_GAMEPAD_START, XINPUT_GAMEPAD_X, XINPUT_GAMEPAD_Y,
};
use crate::win32_platform::{GamepadState, KeyMessageEffect, Win32Platform};

verus! {

/// A button's state after a key or mouse event that says whether it is held:
/// a change of state counts one half transition.
pub open spec fn after_key_event(state: ButtonState, is_down: bool) -> ButtonState {
    if state.is_down == is_down {
        state
    } else {
        ButtonState { is_down, half_transition_count: (state.half_transition_count + 1) as u32 }
    }
}

/// The event can be counted without the transition counter overflowing.
pub open spec fn can_take_key_event(state: ButtonState, is_down: bool) -> bool {
    state.is_down == is_down || state.half_transition_count < u32::MAX
}

/// A button's state read from gamepad bits: held when all of `button_bit` is
/// set in `bits`, with one half transition when that differs from `old`.
pub open spec fn digital_button(old: ButtonState, bits: u16, button_bit: u16) -> ButtonState {
    let is_down = (bits & button_bit) == button_bit;
    ButtonState { is_down, half_transition_count: if old.is_down != is_down { 1 } else { 0 } }
}

/// A gamepad button read is held exactly when every bit of its mask is set,
/// and counts at most one half transition: one exactly when its held state
/// differs from the previous frame's.
pub proof fn lemma_digital_button_transitions(old: ButtonState, bits: u16, button_bit: u16)
    ensures
        digital_button(old, bits, button_bit).is_down == (bits & button_bit == button_bit),
        digital_button(old, bits, button_bit).half_transition_count <= 1,
        (digital_button(old, bits, button_bit).half_transition_count == 1) == (old.is_down
            != digital_button(old, bits, button_bit).is_down),
{
}

/// Applying the same key event twice is applying it once.
pub proof fn lemma_key_event_idempotent(state: ButtonState, is_down: bool)
    ensures
        after_key_event(after_key_event(state, is_down), is_down) == after_key_event(
            state,
            is_down,
        ),
{
}

/// A key pressed and released again within one frame ends released, with
/// two more half transitions.
pub proof fn lemma_press_and_release(state: ButtonState)
    requires
        !state.is_down,
        state.half_transition_count + 2 <= u32::MAX,
    ensures
        after_key_event(after_key_event(state, true), false) == (ButtonState {
            is_down: false,
            half_transition_count: (state.half_transition_count + 2) as u32,
        }),
{
}

/// A key event leaves the button in the state the event names, and counts a
/// half transition exactly when the state changes.
pub proof fn lemma_key_event_counts_changes(state: ButtonState, is_down: bool)
    requires
        can_take_key_event(state, is_down),
    ensures
        after_key_event(state, is_down).is_down == is_down,
        after_key_event(state, is_down).half_transition_count == state.half_transition_count + (
        if state.is_down != is_down {
            1int
        } else {
            0int
        }),
{
}

/// The position of a stick reading after the dead zone, in stick units (see
/// `ControllerInput`): with the dead zone taken as a signed 16-bit number
/// `dz`, a reading below `-dz` is divided by 32768, one above `dz` by 32767,
/// and any other is the centre.
pub open spec fn normalized_stick(stick_axis_value: i16, dead_zone: u16) -> i32 {
    let dz = dead_zone as i16;
    if stick_axis_value < -dz {
        (stick_axis_value * 32767) as i32
    } else if stick_axis_value > dz {
        (stick_axis_value * 32768) as i32
    } else {
        0
    }
}

/// Full deflection towards the positive end (`1.0`).
pub const STICK_MAX: i32 = 1073709056;

/// Full deflection towards the negative end (`-1.0`).
pub const STICK_MIN: i32 = -1073709056;

/// Half a deflection (`0.5`).
pub const STICK_HALF: i32 = 536854528;

/// A stick reading is scaled to a position only outside the dead zone (the
/// dead zone's 16 bits read as a signed number `dz`): below `-dz` it is
/// divided by 32768 (times 32767 in stick units), above `dz` by 32767 (times
/// 32768), and anything else is the centre. So the result is 0 or the reading
/// times one of the two factors, with the reading's sign.
pub proof fn lemma_stick_scaling(stick_axis_value: i16, dead_zone: u16)
    ensures
        ({
            let dz: i16 = dead_zone as i16;
            let r = normalized_stick(stick_axis_value, dead_zone);
            &&& stick_axis_value < -dz ==> r == stick_axis_value * 32767
            &&& (-dz <= stick_axis_value && stick_axis_value > dz) ==> r == stick_axis_value * 32768
            &&& (-dz <= stick_axis_value && stick_axis_value <= dz) ==> r == 0
            &&& -1073709056 <= r <= 1073709056
        }),
{
}

/// The gamepad bit that drives each controller button.
pub open spec fn xinput_button_bit(button_index: int) -> u16 {
    if button_index == 0 {
        XINPUT_GAMEPAD_DPAD_UP
    } else if button_index == 1 {
        XINPUT_GAMEPAD_DPAD_RIGHT
    } else if button_index == 2 {
        XINPUT_GAMEPAD_DPAD_DOWN
    } else if button_index == 3 {
        XINPUT_GAMEPAD_DPAD_LEFT
    } else if button_index == 4 {
        XINPUT_GAMEPAD_LEFT_SHOULDER
    } else if button_index == 5 {
        XINPUT_GAMEPAD_RIGHT_SHOULDER
    } else if button_index == 6 {
        XINPUT_GAMEPAD_A
    } else if button_index == 7 {
        XINPUT_GAMEPAD_B
    } else if button_index == 8 {
        XINPUT_GAMEPAD_Y
    } else if button_index == 9 {
        XINPUT_GAMEPAD_X
    } else {
        XINPUT_GAMEPAD_START
    }
}

/// The gamepad bit of the controller button at `button_index`.
fn button_bit_of(button_index: usize) -> (bit: u16)
    requires
        button_index < CONTROLLER_BUTTON_COUNT,
    ensures
        bit == xinput_button_bit(button_index as int),
{
    if button_index == 0 {
        XINPUT_GAMEPAD_DPAD_UP
    } else if button_index == 1 {
        XINPUT_GAMEPAD_DPAD_RIGHT
    } else if button_index == 2 {
        XINPUT_GAMEPAD_DPAD_DOWN
    } else if button_index == 3 {
        XINPUT_GAMEPAD_DPAD_LEFT
    } else if button_index == 4 {
        XINPUT_GAMEPAD_LEFT_SHOULDER
    } else if button_index == 5 {
        XINPUT_GAMEPAD_RIGHT_SHOULDER
    } else if button_index == 6 {
        XINPUT_GAMEPAD_A
    } else if button_index == 7 {
        XINPUT_GAMEPAD_B
    } else if button_index == 8 {
        XINPUT_GAMEPAD_Y
    } else if button_index == 9 {
        XINPUT_GAMEPAD_X
    } else {
        XINPUT_GAMEPAD_START
    }
}

/// The controller that a connected gamepad's reading `pad` makes of the
/// previous frame's controller `old`.
pub open spec fn gamepad_frame(old: ControllerInput, pad: GamepadState, new: ControllerInput) -> bool {
    let lx = normalized_stick(pad.thumb_lx, XINPUT_GAMEPAD_LEFT_THUMB_DEADZONE);
    let ly = normalized_stick(pad.thumb_ly, XINPUT_GAMEPAD_LEFT_THUMB_DEADZONE);
    let rx = normalized_stick(pad.thumb_rx, XINPUT_GAMEPAD_RIGHT_THUMB_DEADZONE);
    let ry = normalized_stick(pad.thumb_ry, XINPUT_GAMEPAD_RIGHT_THUMB_DEADZONE);
    let up = (pad.buttons & XINPUT_GAMEPAD_DPAD_UP) != 0;
    let down = (pad.buttons & XINPUT_GAMEPAD_DPAD_DOWN) != 0;
    let left = (pad.buttons & XINPUT_GAMEPAD_DPAD_LEFT) != 0;
    let right = (pad.buttons & XINPUT_GAMEPAD_DPAD_RIGHT) != 0;
    let moved = lx != 0 || ly != 0 || rx != 0 || ry != 0;
    &&& new.is_connected
    &&& new.is_analog == (!(up || down || left || right) && (old.is_analog || moved))
    &&& new.left_stick_x == (if right {
        STICK_MAX
    } else if left {
        STICK_MIN
    } else {
        lx
    })
    &&& new.left_stick_y == (if down {
        STICK_MIN
    } else if up {
        STICK_MAX
    } else {
        ly
    })
    &&& new.right_stick_x == rx
    &&& new.right_stick_y == ry
    &&& forall|k: int|
        0 <= k < CONTROLLER_BUTTON_COUNT ==> #[trigger] new.buttons@[k] == digital_button(
            old.buttons@[k],
            pad.buttons,
            xinput_button_bit(k),
        )
}

/// Reading a connected gamepad holds each controller button exactly when its
/// own XInput bit is set: Up, Down, Left, Right from the d-pad (0x1, 0x2, 0x4,
/// 0x8), Start (0x10), LeftShoulder (0x100), RightShoulder (0x200), South from
/// A (0x1000), West from B (0x2000), East from X (0x4000), North from Y
/// (0x8000); and a button counts one half transition exactly when it changed
/// since the previous frame.
pub proof fn lemma_gamepad_buttons_follow_their_bits(
    old: ControllerInput,
    pad: GamepadState,
    new: ControllerInput,
)
    requires
        gamepad_frame(old, pad, new),
    ensures
        new.buttons@[ControllerButton::Up.button_index()].is_down == (pad.buttons & 0x0001u16
            == 0x0001u16),
        new.buttons@[ControllerButton::Down.button_index()].is_down == (pad.buttons & 0x0002u16
            == 0x0002u16),
        new.buttons@[ControllerButton::Left.button_index()].is_down == (pad.buttons & 0x0004u16
            == 0x0004u16),
        new.buttons@[ControllerButton::Right.button_index()].is_down == (pad.buttons & 0x0008u16
            == 0x0008u16),
        new.buttons@[ControllerButton::Start.button_index()].is_down == (pad.buttons & 0x0010u16
            == 0x0010u16),
        new.buttons@[ControllerButton::LeftShoulder.button_index()].is_down == (pad.buttons & 0x0100u16
            == 0x0100u16),
        new.buttons@[ControllerButton::RightShoulder.button_index()].is_down == (pad.buttons & 0x0200u16
            == 0x0200u16),
        new.buttons@[ControllerButton::South.button_index()].is_down == (pad.buttons & 0x1000u16
            == 0x1000u16),
        new.buttons@[ControllerButton::West.button_index()].is_down == (pad.buttons & 0x2000u16
            == 0x2000u16),
        new.buttons@[ControllerButton::East.button_index()].is_down == (pad.buttons & 0x4000u16
            == 0x4000u16),
        new.buttons@[ControllerButton::North.button_index()].is_down == (pad.buttons & 0x8000u16
            == 0x8000u16),
        forall|k: int|
            0 <= k < 11 ==> #[trigger] new.buttons@[k].half_transition_count == (if old.buttons@[k].is_down
                != new.buttons@[k].is_down {
                1u32
            } else {
                0u32
            }),
{
    crate::game_api::lemma_controller_button_order();
    assert(new.buttons@[0] == digital_button(old.buttons@[0], pad.buttons, xinput_button_bit(0)));
    assert(new.buttons@[1] == digital_button(old.buttons@[1], pad.buttons, xinput_button_bit(1)));
    assert(new.buttons@[2] == digital_button(old.buttons@[2], pad.buttons, xinput_button_bit(2)));
    assert(new.buttons@[3] == digital_button(old.buttons@[3], pad.buttons, xinput_button_bit(3)));
    assert(new.buttons@[4] == digital_button(old.buttons@[4], pad.buttons, xinput_button_bit(4)));
    assert(new.buttons@[5] == digital_button(old.buttons@[5], pad.buttons, xinput_button_bit(5)));
    assert(new.buttons@[6] == digital_button(old.buttons@[6], pad.buttons, xinput_button_bit(6)));
    assert(new.buttons@[7] == digital_button(old.buttons@[7], pad.buttons, xinput_button_bit(7)));
    assert(new.buttons@[8] == digital_button(old.buttons@[8], pad.buttons, xinput_button_bit(8)));
    assert(new.buttons@[9] == digital_button(old.buttons@[9], pad.buttons, xinput_button_bit(9)));
    assert(new.buttons@[10] == digital_button(old.buttons@[10], pad.buttons, xinput_button_bit(10)));
}

/// Reading a connected gamepad marks it connected and sets each stick axis
/// from its own reading: the right stick's x from `thumb_rx` and y from
/// `thumb_ry` with the dead zone 8689, the left stick's from `thumb_lx` and
/// `thumb_ly` with the dead zone 7849, a reading below minus the dead zone
/// divided by 32768 (times 32767 in stick units), one above it divided by
/// 32767 (times 32768), any other the centre. A pressed d-pad direction
/// overrides the left stick with a full deflection (right over left, down over
/// up) and makes the controller digital; otherwise it is analog when it was,
/// or when any stick is off centre.
pub proof fn lemma_gamepad_sticks_follow_their_axes(
    old: ControllerInput,
    pad: GamepadState,
    new: ControllerInput,
)
    requires
        gamepad_frame(old, pad, new),
    ensures
        new.is_connected,
        new.right_stick_x == (if pad.thumb_rx < -8689 {
            pad.thumb_rx * 32767
        } else if pad.thumb_rx > 8689 {
            pad.thumb_rx * 32768
        } else {
            0
        }),
        new.right_stick_y == (if pad.thumb_ry < -8689 {
            pad.thumb_ry * 32767
        } else if pad.thumb_ry > 8689 {
            pad.thumb_ry * 32768
        } else {
            0
        }),
        new.left_stick_x == (if pad.buttons & 0x0008u16 != 0 {
            1073709056
        } else if pad.buttons & 0x0004u16 != 0 {
            -1073709056
        } else if pad.thumb_lx < -7849 {
            pad.thumb_lx * 32767
        } else if pad.thumb_lx > 7849 {
            pad.thumb_lx * 32768
        } else {
            0
        }),
        new.left_stick_y == (if pad.buttons & 0x0002u16 != 0 {
            -1073709056
        } else if pad.buttons & 0x0001u16 != 0 {
            1073709056
        } else if pad.thumb_ly < -7849 {
            pad.thumb_ly * 32767
        } else if pad.thumb_ly > 7849 {
            pad.thumb_ly * 32768
        } else {
            0
        }),
        new.is_analog == (!(pad.buttons & 0x0001u16 != 0 || pad.buttons & 0x0002u16 != 0
            || pad.buttons & 0x0004u16 != 0 || pad.buttons & 0x0008u16 != 0) && (old.is_analog
            || pad.thumb_lx < -7849 || pad.thumb_lx > 7849 || pad.thumb_ly < -7849 || pad.thumb_ly
            > 7849 || pad.thumb_rx < -8689 || pad.thumb_rx > 8689 || pad.thumb_ry < -8689
            || pad.thumb_ry > 8689)),
{
    assert(7849u16 as i16 == 7849i16) by (bit_vector);
    assert(8689u16 as i16 == 8689i16) by (bit_vector);
}

/// The controller button that a key drives on the keyboard controller.
pub open spec fn key_button(vk_code: u16) -> Option<ControllerButton> {
    if vk_code == VK_W {
        Some(ControllerButton::Up)
    } else if vk_code == VK_S {
        Some(ControllerButton::Down)
    } else if vk_code == VK_A {
        Some(ControllerButton::Left)
    } else if vk_code == VK_D {
        Some(ControllerButton::Right)
    } else if vk_code == VK_DOWN {
        Some(ControllerButton::South)
    } else if vk_code == VK_UP {
        Some(ControllerButton::North)
    } else if vk_code == VK_LEFT {
        Some(ControllerButton::West)
    } else if vk_code == VK_RIGHT {
        Some(ControllerButton::East)
    } else if vk_code == VK_SHIFT {
        Some(ControllerButton::RightShoulder)
    } else if vk_code == VK_SPACE {
        Some(ControllerButton::Start)
    } else {
        None
    }
}

/// The controller button that a key drives (see `key_button`).
fn key_button_of(vk_code: u16) -> (button: Option<ControllerButton>)
    ensures
        button == key_button(vk_code),
{
    if vk_code == VK_W {
        Some(ControllerButton::Up)
    } else if vk_code == VK_S {
        Some(ControllerButton::Down)
    } else if vk_code == VK_A {
        Some(ControllerButton::Left)
    } else if vk_code == VK_D {
        Some(ControllerButton::Right)
    } else if vk_code == VK_DOWN {
        Some(ControllerButton::South)
    } else if vk_code == VK_UP {
        Some(ControllerButton::North)
    } else if vk_code == VK_LEFT {
        Some(ControllerButton::West)
    } else if vk_code == VK_RIGHT {
        Some(ControllerButton::East)
    } else if vk_code == VK_SHIFT {
        Some(ControllerButton::RightShoulder)
    } else if vk_code == VK_SPACE {
        Some(ControllerButton::Start)
    } else {
        None
    }
}

/// Bit 31 of a key message's `lParam`: the key was down before the message.
pub open spec fn key_was_down(lparam: isize) -> bool {
    lparam & (1isize << 31u32) != 0
}

/// Bit 30 of a key message's `lParam` is clear: the key is down now.
pub open spec fn key_is_down(lparam: isize) -> bool {
    lparam & (1isize << 30u32) == 0
}

/// Bit 29 of a key message's `lParam`: Alt is held.
pub open spec fn key_alt_down(lparam: isize) -> bool {
    lparam & (1isize << 29u32) != 0
}

/// Handling a key message: a message whose `lParam` repeats the key's state
/// (bit 31 set exactly when bit 30 is clear) changes nothing. Otherwise the
/// virtual keys W (87), S (83), A (65), D (68), Down (40), Up (38), Left (37),
/// Right (39), Shift (16) and Space (32), taken from the low 16 bits of
/// `wParam`, set the keyboard controller's Up, Down, Left, Right, South,
/// North, West, East, RightShoulder and Start buttons to the key's new state
/// (bit 30 clear: held), counting a half transition when the button changes;
/// every other key leaves the controller as it was. Only a press of F4 (115)
/// with Alt held (bit 29) stops the platform, and only a press of F11 (122)
/// asks for fullscreen to be toggled.
pub proof fn lemma_key_message_effects(
    old_platform: Win32Platform,
    old_keyboard: ControllerInput,
    wparam: usize,
    lparam: isize,
    platform: Win32Platform,
    keyboard: ControllerInput,
    effect: KeyMessageEffect,
)
    requires
        key_message_outcome(
            old_platform,
            old_keyboard,
            wparam,
            lparam,
            platform,
            keyboard,
            effect,
        ),
    ensures
        ({
            let vk = wparam as u16;
            let is_down = lparam & (1isize << 30u32) == 0;
            let was_down = lparam & (1isize << 31u32) != 0;
            let changes = was_down != is_down;
            &&& keyboard == (ControllerInput { buttons: keyboard.buttons, ..old_keyboard })
            &&& !changes ==> keyboard == old_keyboard
            &&& (vk != 87u16 && vk != 83u16 && vk != 65u16 && vk != 68u16 && vk != 40u16
                && vk != 38u16 && vk != 37u16 && vk != 39u16 && vk != 16u16 && vk != 32u16)
                ==> keyboard == old_keyboard
            &&& platform == (Win32Platform { is_running: platform.is_running, ..old_platform })
            &&& platform.is_running == (old_platform.is_running && !(changes && vk == 115u16
                && is_down && lparam & (1isize << 29u32) != 0))
            &&& effect == (if changes && vk == 122u16 && is_down {
                KeyMessageEffect::ToggleFullscreen
            } else {
                KeyMessageEffect::Nothing
            })
        }),
        ({
            let vk = wparam as u16;
            let is_down = lparam & (1isize << 30u32) == 0;
            let changes = (lparam & (1isize << 31u32) != 0) != is_down;
            let slot = ControllerButton::Up.button_index();
            let before = old_keyboard.buttons@[slot];
            changes && vk == 87u16 ==> keyboard.buttons@ == old_keyboard.buttons@.update(
                slot,
                if before.is_down == is_down {
                    before
                } else {
                    ButtonState {
                        is_down,
                        half_transition_count: (before.half_transition_count + 1) as u32,
                    }
                },
            )
        }),
        ({
            let vk = wparam as u16;
            let is_down = lparam & (1isize << 30u32) == 0;
            let changes = (lparam & (1isize << 31u32) != 0) != is_down;
            let slot = ControllerButton::Down.button_index();
            let before = old_keyboard.buttons@[slot];
            changes && vk == 83u16 ==> keyboard.buttons@ == old_keyboard.buttons@.update(
                slot,
                if before.is_down == is_down {
                    before
                } else {
                    ButtonState {
                        is_down,
                        half_transition_count: (before.half_transition_count + 1) as u32,
                    }
                },
            )
        }),
        ({
            let vk = wparam as u16;
            let is_down = lparam & (1isize << 30u32) == 0;
            let changes = (lparam & (1isize << 31u32) != 0) != is_down;
            let slot = ControllerButton::Left.button_index();
            let before = old_keyboard.buttons@[slot];
            changes && vk == 65u16 ==> keyboard.buttons@ == old_keyboard.buttons@.update(
                slot,
                if before.is_down == is_down {
                    before
                } else {
                    ButtonState {
                        is_down,
                        half_transition_count: (before.half_transition_count + 1) as u32,
                    }
                },
            )
        }),
        ({
            let vk = wparam as u16;
            let is_down = lparam & (1isize << 30u32) == 0;
            let changes = (lparam & (1isize << 31u32) != 0) != is_down;
            let slot = ControllerButton::Right.button_index();
            let before = old_keyboard.buttons@[slot];
            changes && vk == 68u16 ==> keyboard.buttons@ == old_keyboard.buttons@.update(
                slot,
                if before.is_down == is_down {
                    before
                } else {
                    ButtonState {
                        is_down,
                        half_transition_count: (before.half_transition_count + 1) as u32,
                    }
                },
            )
        }),
        ({
            let vk = wparam as u16;
            let is_down = lparam & (1isize << 30u32) == 0;
            let changes = (lparam & (1isize << 31u32) != 0) != is_down;
            let slot = ControllerButton::South.button_index();
            let before = old_keyboard.buttons@[slot];
            changes && vk == 40u16 ==> keyboard.buttons@ == old_keyboard.buttons@.update(
                slot,
                if before.is_down == is_down {
                    before
                } else {
                    ButtonState {
                        is_down,
                        half_transition_count: (before.half_transition_count + 1) as u32,
                    }
                },
            )
        }),
        ({
            let vk = wparam as u16;
            let is_down = lparam & (1isize << 30u32) == 0;
            let changes = (lparam & (1isize << 31u32) != 0) != is_down;
            let slot = ControllerButton::North.button_index();
            let before = old_keyboard.buttons@[slot];
            changes && vk == 38u16 ==> keyboard.buttons@ == old_keyboard.buttons@.update(
                slot,
                if before.is_down == is_down {
                    before
                } else {
                    ButtonState {
                        is_down,
                        half_transition_count: (before.half_transition_count + 1) as u32,
                    }
                },
            )
        }),
        ({
            let vk = wparam as u16;
            let is_down = lparam & (1isize << 30u32) == 0;
            let changes = (lparam & (1isize << 31u32) != 0) != is_down;
            let slot = ControllerButton::West.button_index();
            let before = old_keyboard.buttons@[slot];
            changes && vk == 37u16 ==> keyboard.buttons@ == old_keyboard.buttons@.update(
                slot,
                if before.is_down == is_down {
                    before
                } else {
                    ButtonState {
                        is_down,
                        half_transition_count: (before.half_transition_count + 1) as u32,
                    }
                },
            )
        }),
        ({
            let vk = wparam as u16;
            let is_down = lparam & (1isize << 30u32) == 0;
            let changes = (lparam & (1isize << 31u32) != 0) != is_down;
            let slot = ControllerButton::East.button_index();
            let before = old_keyboard.buttons@[slot];
            changes && vk == 39u16 ==> keyboard.buttons@ == old_keyboard.buttons@.update(
                slot,
                if before.is_down == is_down {
                    before
                } else {
                    ButtonState {
                        is_down,
                        half_transition_count: (before.half_transition_count + 1) as u32,
                    }
                },
            )
        }),
        ({
            let vk = wparam as u16;
            let is_down = lparam & (1isize << 30u32) == 0;
            let changes = (lparam & (1isize << 31u32) != 0) != is_down;
            let slot = ControllerButton::RightShoulder.button_index();
            let before = old_keyboard.buttons@[slot];
            changes && vk == 16u16 ==> keyboard.buttons@ == old_keyboard.buttons@.update(
                slot,
                if before.is_down == is_down {
                    before
                } else {
                    ButtonState {
                        is_down,
                        half_transition_count: (before.half_transition_count + 1) as u32,
                    }
                },
            )
        }),
        ({
            let vk = wparam as u16;
            let is_down = lparam & (1isize << 30u32) == 0;
            let changes = (lparam & (1isize << 31u32) != 0) != is_down;
            let slot = ControllerButton::Start.button_index();
            let before = old_keyboard.buttons@[slot];
            changes && vk == 32u16 ==> keyboard.buttons@ == old_keyboard.buttons@.update(
                slot,
                if before.is_down == is_down {
                    before
                } else {
                    ButtonState {
                        is_down,
                        half_transition_count: (before.half_transition_count + 1) as u32,
                    }
                },
            )
        }),
{
    crate::game_api::lemma_controller_button_order();
}

/// The keyboard controller can take the key message without a transition
/// counter overflowing: a message that repeats the key's state touches no
/// button, and one that changes it needs room only in its own button's
/// counter.
pub open spec fn can_take_key_message(
    wparam: usize,
    lparam: isize,
    keyboard_controller: ControllerInput,
) -> bool {
    key_was_down(lparam) != key_is_down(lparam) ==> (key_button(wparam as u16) matches Some(b)
        ==> can_take_key_event(keyboard_controller.buttons@[b.button_index()], key_is_down(lparam)))
}

/// What handling a key message with parameters `wparam` and `lparam` makes of
/// the platform `old_platform` and the keyboard controller `old_keyboard`:
/// the platform `platform`, the controller `keyboard` and the effect `effect`.
pub open spec fn key_message_outcome(
    old_platform: Win32Platform,
    old_keyboard: ControllerInput,
    wparam: usize,
    lparam: isize,
    platform: Win32Platform,
    keyboard: ControllerInput,
    effect: KeyMessageEffect,
) -> bool {
    let vk = wparam as u16;
    let is_down = key_is_down(lparam);
    if key_was_down(lparam) == is_down {
        &&& platform == old_platform
        &&& keyboard == old_keyboard
        &&& effect == KeyMessageEffect::Nothing
    } else if let Some(b) = key_button(vk) {
        &&& platform == old_platform
        &&& keyboard == (ControllerInput { buttons: keyboard.buttons, ..old_keyboard })
        &&& keyboard.buttons@ == old_keyboard.buttons@.update(
            b.button_index(),
            after_key_event(old_keyboard.buttons@[b.button_index()], is_down),
        )
        &&& effect == KeyMessageEffect::Nothing
    } else {
        &&& platform == (Win32Platform {
            is_running: old_platform.is_running && !(vk == VK_F4 && is_down && key_alt_down(
                lparam,
            )),
            ..old_platform
        })
        &&& keyboard == old_keyboard
        &&& effect == (if vk == VK_F11 && is_down {
            KeyMessageEffect::ToggleFullscreen
        } else {
            KeyMessageEffect::Nothing
        })
    }
}

/// Any key message that repeats the key's state, and any message for a key
/// that drives no keyboard button, can be taken whatever the controller's
/// transition counters hold.
pub proof fn lemma_key_messages_taken(wparam: usize, lparam: isize, keyboard: ControllerInput)
    ensures
        (lparam & (1isize << 31u32) != 0) == (lparam & (1isize << 30u32) == 0)
            ==> can_take_key_message(wparam, lparam, keyboard),
        ({
            let vk = wparam as u16;
            (vk != 87u16 && vk != 83u16 && vk != 65u16 && vk != 68u16 && vk != 40u16 && vk
                != 38u16 && vk != 37u16 && vk != 39u16 && vk != 16u16 && vk != 32u16)
                ==> can_take_key_message(wparam, lparam, keyboard)
        }),
{
}

impl Win32Platform {
    /// Records a key or mouse event on `new_state`: whether the button is
    /// held now, counting a half transition when that changes.
    pub fn process_keyboard_message(&self, new_state: &mut ButtonState, is_down: bool)
        requires
            can_take_key_event(*old(new_state), is_down),
        ensures
            *final(new_state) == after_key_event(*old(new_state), is_down),
    {
        if new_state.is_down == is_down {
            return;
        }
        new_state.is_down = is_down;
        new_state.half_transition_count += 1;
    }

    /// A thumb stick reading after the dead zone (see `normalized_stick`).
    pub fn normalize_xinput_stick_value(&self, stick_axis_value: i16, dead_zone: u16) -> (r: i32)
        requires
            dead_zone != 32768,
        ensures
            r == normalized_stick(stick_axis_value, dead_zone),
    {
        proof {
            assert(dead_zone != 32768u16 ==> dead_zone as i16 != -32768i16) by (bit_vector);
        }
        let dead_zone: i16 = #[verifier::truncate] (dead_zone as i16);
        if stick_axis_value < -dead_zone {
            return stick_axis_value as i32 * 32767;
        } else if stick_axis_value > dead_zone {
            return stick_axis_value as i32 * 32768;
        }
        0
    }

    /// Reads one gamepad button into `new_state`, comparing with the previous
    /// frame's `old_state`.
    pub fn process_xinput_digital_button(
        &self,
        xinput_button_state: u16,
        old_state: &mut ButtonState,
        new_state: &mut ButtonState,
        button_bit: u16,
    )
        ensures
            *final(old_state) == *old(old_state),
            *final(new_state) == digital_button(*old(old_state), xinput_button_state, button_bit),
    {
        new_state.is_down = (xinput_button_state & button_bit) == button_bit;
        new_state.half_transition_count = if old_state.is_down != new_state.is_down {
            1
        } else {
            0
        };
    }
}

impl Win32Platform {
    /// Applies a key message (`WM_KEYDOWN`, `WM_KEYUP`, `WM_SYSKEYDOWN`,
    /// `WM_SYSKEYUP`) with parameters `wparam` and `lparam`.
    ///
    /// A message that repeats the key's state changes nothing. Otherwise the
    /// keys W, S, A, D, Down, Up, Left, Right, Shift and Space drive the
    /// keyboard controller's Up, Down, Left, Right, South, North, West, East,
    /// RightShoulder and Start buttons; Alt+F4 pressed stops the platform;
    /// F11 pressed asks for fullscreen to be toggled.
    pub fn handle_key_message(
        &mut self,
        wparam: usize,
        lparam: isize,
        keyboard_controller: &mut ControllerInput,
    ) -> (effect: KeyMessageEffect)
        requires
            can_take_key_message(wparam, lparam, *old(keyboard_controller)),
        ensures
            old(self).wf() ==> final(self).wf(),
            key_message_outcome(
                *old(self),
                *old(keyboard_controller),
                wparam,
                lparam,
                *final(self),
                *final(keyboard_controller),
                effect,
            ),
    {
        let vk_code: u16 = #[verifier::truncate] (wparam as u16);
        let was_down: bool = lparam & (1isize << 31u32) != 0;
        let is_down: bool = lparam & (1isize << 30u32) == 0;
        let is_alt_key_down: bool = lparam & (1isize << 29u32) != 0;

        if was_down == is_down {
            return KeyMessageEffect::Nothing;
        }
        let button = key_button_of(vk_code);
        match button {
            Some(b) => {
                self.process_keyboard_message(keyboard_controller.get_button(b), is_down);
                KeyMessageEffect::Nothing
            },
            None => {
                if vk_code == VK_F11 {
                    if is_down {
                        return KeyMessageEffect::ToggleFullscreen;
                    }
                } else if vk_code == VK_F4 {
                    if is_down && is_alt_key_down {
                        self.is_running = false;
                    }
                }
                KeyMessageEffect::Nothing
            },
        }
    }
}

impl Win32Platform {
    /// Reads `button` of `new_controller` from the gamepad bits, comparing
    /// with the same button of `old_controller`.
    fn read_gamepad_button(
        &self,
        bits: u16,
        old_controller: &ControllerInput,
        new_controller: &mut ControllerInput,
        button: ControllerButton,
        button_bit: u16,
    )
        requires
            button != ControllerButton::Count,
        ensures
            *final(new_controller) == (ControllerInput {
                buttons: final(new_controller).buttons,
                ..*old(new_controller)
            }),
            final(new_controller).buttons@ == old(new_controller).buttons@.update(
                button.button_index(),
                digital_button(old_controller.buttons@[button.button_index()], bits, button_bit),
            ),
    {
        let mut old_state = old_controller.buttons[button.index()];
        self.process_xinput_digital_button(
            bits,
            &mut old_state,
            new_controller.get_button(button),
            button_bit,
        );
    }

    /// Reads every button of `new_controller` from its gamepad bit.
    fn read_gamepad_buttons(
        &self,
        bits: u16,
        old_controller: &ControllerInput,
        new_controller: &mut ControllerInput,
    )
        ensures
            *final(new_controller) == (ControllerInput {
                buttons: final(new_controller).buttons,
                ..*old(new_controller)
            }),
            forall|k: int|
                0 <= k < CONTROLLER_BUTTON_COUNT ==> #[trigger] final(new_controller).buttons@[k]
                    == digital_button(old_controller.buttons@[k], bits, xinput_button_bit(k)),
    {
        let ghost start = *new_controller;
        for k in 0..CONTROLLER_BUTTON_COUNT
            invariant
                *new_controller == (ControllerInput { buttons: new_controller.buttons, ..start }),
                forall|j: int|
                    0 <= j < k ==> #[trigger] new_controller.buttons@[j] == digital_button(
                        old_controller.buttons@[j],
                        bits,
                        xinput_button_bit(j),
                    ),
        {
            let mut old_state = old_controller.buttons[k];
            let bit: u16 = button_bit_of(k);
            self.process_xinput_digital_button(bits, &mut old_state, &mut new_controller.buttons[k], bit);
        }
    }

    /// Reads a gamepad into `new_controller`, comparing with the previous
    /// frame's `old_controller`. `None` stands for a gamepad that XInput could
    /// not read: it is marked disconnected and nothing else changes.
    ///
    /// Stick readings outside their dead zones become positions (see
    /// `normalized_stick`), and any such position makes the controller analog; a pressed d-pad direction moves the left stick
    /// fully that way and makes the controller digital. Each button is read
    /// from its gamepad bit (d-pad for Up, Down, Left, Right; A, B, Y, X for
    /// South, West, North, East; the shoulders; Start).
    pub fn process_controller_state(
        &self,
        old_controller: &mut ControllerInput,
        new_controller: &mut ControllerInput,
        gamepad: Option<GamepadState>,
    )
        ensures
            *final(old_controller) == *old(old_controller),
            match gamepad {
                None => *final(new_controller) == (ControllerInput {
                    is_connected: false,
                    ..*old(new_controller)
                }),
                Some(pad) => gamepad_frame(*old(old_controller), pad, *final(new_controller)),
            },
    {
        let pad = match gamepad {
            None => {
                new_controller.is_connected = false;
                return;
            },
            Some(pad) => pad,
        };
        new_controller.is_connected = true;
        new_controller.is_analog = old_controller.is_analog;

        new_controller.left_stick_x = self.normalize_xinput_stick_value(
            pad.thumb_lx,
            XINPUT_GAMEPAD_LEFT_THUMB_DEADZONE,
        );
        new_controller.left_stick_y = self.normalize_xinput_stick_value(
            pad.thumb_ly,
            XINPUT_GAMEPAD_LEFT_THUMB_DEADZONE,
        );
        new_controller.right_stick_x = self.normalize_xinput_stick_value(
            pad.thumb_rx,
            XINPUT_GAMEPAD_RIGHT_THUMB_DEADZONE,
        );
        new_controller.right_stick_y = self.normalize_xinput_stick_value(
            pad.thumb_ry,
            XINPUT_GAMEPAD_RIGHT_THUMB_DEADZONE,
        );

        let dpad_up = (pad.buttons & XINPUT_GAMEPAD_DPAD_UP) != 0;
        let dpad_down = (pad.buttons & XINPUT_GAMEPAD_DPAD_DOWN) != 0;
        let dpad_left = (pad.buttons & XINPUT_GAMEPAD_DPAD_LEFT) != 0;
        let dpad_right = (pad.buttons & XINPUT_GAMEPAD_DPAD_RIGHT) != 0;

        if new_controller.left_stick_x != 0 || new_controller.left_stick_y != 0
            || new_controller.right_stick_x != 0 || new_controller.right_stick_y != 0 {
            new_controller.is_analog = true;
        }
        if dpad_up {
            new_controller.left_stick_y = STICK_MAX;
            new_controller.is_analog = false;
        }
        if dpad_down {
            new_controller.left_stick_y = STICK_MIN;
            new_controller.is_analog = false;
        }
        if dpad_left {
            new_controller.left_stick_x = STICK_MIN;
            new_controller.is_analog = false;
        }
        if dpad_right {
            new_controller.left_stick_x = STICK_MAX;
            new_controller.is_analog = false;
        }

        // A stick position past -0.5 or 0.5 counts as a held direction button;
        // the d-pad reading below then decides those buttons.
        let stick_left: u16 = if new_controller.left_stick_x < -STICK_HALF { 1 } else { 0 };
        let stick_right: u16 = if new_controller.left_stick_x > STICK_HALF { 1 } else { 0 };
        let stick_down: u16 = if new_controller.left_stick_y < -STICK_HALF { 1 } else { 0 };
        let stick_up: u16 = if new_controller.left_stick_y > STICK_HALF { 1 } else { 0 };
        self.read_gamepad_button(stick_left, old_controller, new_controller, ControllerButton::Left, 1);
        self.read_gamepad_button(stick_right, old_controller, new_controller, ControllerButton::Right, 1);
        self.read_gamepad_button(stick_down, old_controller, new_controller, ControllerButton::Down, 1);
        self.read_gamepad_button(stick_up, old_controller, new_controller, ControllerButton::Up, 1);
        self.read_gamepad_buttons(pad.buttons, old_controller, new_controller);
    }
}

impl Win32Platform {
    /// Starts a frame's keyboard input: the keyboard controller (slot 0) of
    /// `new_input` becomes a connected controller whose buttons keep their
    /// held state from `old_input` and have no transitions yet, and the
    /// executable counts as not reloaded.
    pub fn begin_keyboard_frame(&self, old_input: &Input, new_input: &mut Input)
        ensures
            !final(new_input).executable_reloaded,
            final(new_input).mouse_buttons == old(new_input).mouse_buttons,
            final(new_input).mouse_x == old(new_input).mouse_x,
            final(new_input).mouse_y == old(new_input).mouse_y,
            final(new_input).mouse_wheel == old(new_input).mouse_wheel,
            forall|k: int|
                1 <= k < CONTROLLER_COUNT ==> #[trigger] final(new_input).controllers@[k]
                    == old(new_input).controllers@[k],
            ({
                let kb = final(new_input).controllers@[0];
                &&& kb.is_connected
                &&& !kb.is_analog
                &&& kb.left_stick_x == 0 && kb.left_stick_y == 0
                &&& kb.right_stick_x == 0 && kb.right_stick_y == 0
                &&& forall|k: int|
                    0 <= k < CONTROLLER_BUTTON_COUNT ==> #[trigger] kb.buttons@[k] == (ButtonState {
                        is_down: old_input.controllers@[0].buttons@[k].is_down,
                        half_transition_count: 0,
                    })
            }),
    {
        new_input.executable_reloaded = false;
        let old_keyboard_controller = &old_input.controllers[0];
        let mut keyboard = ControllerInput::default();
        keyboard.is_connected = true;
        for i in 0..CONTROLLER_BUTTON_COUNT
            invariant
                keyboard.is_connected,
                !keyboard.is_analog,
                keyboard.left_stick_x == 0 && keyboard.left_stick_y == 0,
                keyboard.right_stick_x == 0 && keyboard.right_stick_y == 0,
                forall|k: int|
                    0 <= k < i ==> #[trigger] keyboard.buttons@[k] == (ButtonState {
                        is_down: old_keyboard_controller.buttons@[k].is_down,
                        half_transition_count: 0,
                    }),
                forall|k: int|
                    i <= k < CONTROLLER_BUTTON_COUNT ==> #[trigger] keyboard.buttons@[k]
                        == ButtonState::released(),
        {
            keyboard.buttons[i].is_down = old_keyboard_controller.buttons[i].is_down;
        }
        *new_input.get_controller_input(0) = keyboard;
    }

    /// Records the mouse: its position in the window, no wheel movement, and
    /// the left, right and middle buttons from their key states (a button is
    /// held when the high bit of its key state is set).
    pub fn process_mouse_input(
        &self,
        input: &mut Input,
        mouse_x: i32,
        mouse_y: i32,
        left_key_state: i16,
        right_key_state: i16,
        middle_key_state: i16,
    )
        requires
            can_take_key_event(old(input).mouse_buttons@[0], left_key_state < 0),
            can_take_key_event(old(input).mouse_buttons@[1], right_key_state < 0),
            can_take_key_event(old(input).mouse_buttons@[2], middle_key_state < 0),
        ensures
            final(input).mouse_x == mouse_x,
            final(input).mouse_y == mouse_y,
            final(input).mouse_wheel == 0,
            final(input).controllers == old(input).controllers,
            final(input).executable_reloaded == old(input).executable_reloaded,
            final(input).mouse_buttons@ == seq![
                after_key_event(old(input).mouse_buttons@[0], left_key_state < 0),
                after_key_event(old(input).mouse_buttons@[1], right_key_state < 0),
                after_key_event(old(input).mouse_buttons@[2], middle_key_state < 0),
            ],
    {
        input.mouse_x = mouse_x;
        input.mouse_y = mouse_y;
        input.mouse_wheel = 0;
        self.process_keyboard_message(input.get_mouse_button(MouseButton::Left), left_key_state < 0);
        self.process_keyboard_message(input.get_mouse_button(MouseButton::Right), right_key_state < 0);
        self.process_keyboard_message(input.get_mouse_button(MouseButton::Middle), middle_key_state < 0);
        proof {
            assert(input.mouse_buttons@ =~= seq![
                after_key_event(old(input).mouse_buttons@[0], left_key_state < 0),
                after_key_event(old(input).mouse_buttons@[1], right_key_state < 0),
                after_key_event(old(input).mouse_buttons@[2], middle_key_state < 0),
            ]);
        }
    }

}

impl Win32Platform {
    /// Whether `handle_key_message` can take this key message: a message that
    /// changes the state of a key driving a keyboard button must find that
    /// button's transition counter below `u32::MAX` (or the button already in
    /// the new state).
    pub fn key_message_fits(
        &self,
        wparam: usize,
        lparam: isize,
        keyboard_controller: &ControllerInput,
    ) -> (fits: bool)
        ensures
            fits == can_take_key_message(wparam, lparam, *keyboard_controller),
    {
        let vk_code: u16 = #[verifier::truncate] (wparam as u16);
        let was_down: bool = lparam & (1isize << 31u32) != 0;
        let is_down: bool = lparam & (1isize << 30u32) == 0;
        if was_down == is_down {
            return true;
        }
        let button = key_button_of(vk_code);
        match button {
            Some(b) => self.button_event_fits(&keyboard_controller.buttons[b.index()], is_down),
            None => true,
        }
    }

    /// Whether `process_keyboard_message` can take the event: a change of
    /// state must find the transition counter below `u32::MAX`.
    pub fn button_event_fits(&self, state: &ButtonState, is_down: bool) -> (fits: bool)
        ensures
            fits == can_take_key_event(*state, is_down),
    {
        state.is_down == is_down || state.half_transition_count < u32::MAX
    }
}

} // verus!
