//! Values of the Windows API that the platform layer's decisions depend on.
use vstd::prelude::*;

verus! {

/// Length of the module file name buffer, in UTF-16 units.
pub const MAX_PATH: usize = 260;

/// `'\\'` as a UTF-16 unit.
pub const BACKSLASH: u16 = 92;

/// Size in bytes of a `BITMAPINFOHEADER`.
pub const BITMAPINFOHEADER_SIZE: u32 = 40;

/// Uncompressed RGB bitmap compression mode.
pub const BI_RGB: u32 = 0;

/// Window messages.
pub const WM_SIZE: u32 = 5;
pub const WM_PAINT: u32 = 15;
pub const WM_CLOSE: u32 = 16;
pub const WM_QUIT: u32 = 18;
pub const WM_SETCURSOR: u32 = 32;
pub const WM_KEYDOWN: u32 = 256;
pub const WM_KEYUP: u32 = 257;
pub const WM_SYSKEYDOWN: u32 = 260;
pub const WM_SYSKEYUP: u32 = 261;

/// The style bits of an overlapped (decorated) window.
pub const WS_OVERLAPPEDWINDOW: u32 = 13565952;

/// Virtual key codes.
pub const VK_RETURN: u16 = 13;
pub const VK_SHIFT: u16 = 16;
pub const VK_SPACE: u16 = 32;
pub const VK_LEFT: u16 = 37;
pub const VK_UP: u16 = 38;
pub const VK_RIGHT: u16 = 39;
pub const VK_DOWN: u16 = 40;
pub const VK_A: u16 = 65;
pub const VK_D: u16 = 68;
pub const VK_S: u16 = 83;
pub const VK_W: u16 = 87;
pub const VK_F4: u16 = 115;
pub const VK_F11: u16 = 122;

/// Gamepad button bits of `XINPUT_GAMEPAD::wButtons`.
pub const XINPUT_GAMEPAD_DPAD_UP: u16 = 1;
pub const XINPUT_GAMEPAD_DPAD_DOWN: u16 = 2;
pub const XINPUT_GAMEPAD_DPAD_LEFT: u16 = 4;
pub const XINPUT_GAMEPAD_DPAD_RIGHT: u16 = 8;
pub const XINPUT_GAMEPAD_START: u16 = 16;
pub const XINPUT_GAMEPAD_LEFT_SHOULDER: u16 = 256;
pub const XINPUT_GAMEPAD_RIGHT_SHOULDER: u16 = 512;
pub const XINPUT_GAMEPAD_A: u16 = 4096;
pub const XINPUT_GAMEPAD_B: u16 = 8192;
pub const XINPUT_GAMEPAD_X: u16 = 16384;
pub const XINPUT_GAMEPAD_Y: u16 = 32768;

/// Dead zones of the thumb sticks.
pub const XINPUT_GAMEPAD_LEFT_THUMB_DEADZONE: u16 = 7849;
pub const XINPUT_GAMEPAD_RIGHT_THUMB_DEADZONE: u16 = 8689;

/// Number of gamepads XInput serves.
pub const XUSER_MAX_COUNT: u32 = 4;

} // verus!
