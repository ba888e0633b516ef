//! The state of the Windows platform layer, and its decisions on window
//! messages and on the game's memory. The calls into Windows themselves are
//! made by the program around this library.
use vstd::prelude::*;
use crate::game_api::{ControllerInput, GameMemory};
use crate::platform_input::{
    after_key_event, can_take_key_message, key_alt_down, key_button, key_is_down,
    key_message_outcome, key_was_down,
};
use crate::units::{gigabytes, megabytes};
use crate::win32::{
    MAX_PATH, VK_F11, VK_F4, WM_CLOSE, WM_KEYDOWN, WM_KEYUP, WM_PAINT, WM_QUIT, WM_SIZE,
    WM_SYSKEYDOWN, WM_SYSKEYUP, XUSER_MAX_COUNT,
};

verus! {

/// The fields of a `BITMAPINFOHEADER`.
#[derive(Clone, Copy, Debug, PartialEq, Eq, Structural)]
pub struct BitmapInfoHeader {
    pub size: u32,
    pub width: i32,
    pub height: i32,
    pub planes: u16,
    pub bit_count: u16,
    pub compression: u32,
    pub size_image: u32,
    pub x_pels_per_meter: i32,
    pub y_pels_per_meter: i32,
    pub clr_used: u32,
    pub clr_important: u32,
}

impl BitmapInfoHeader {
    pub open spec fn zeroed() -> BitmapInfoHeader {
        BitmapInfoHeader {
            size: 0,
            width: 0,
            height: 0,
            planes: 0,
            bit_count: 0,
            compression: 0,
            size_image: 0,
            x_pels_per_meter: 0,
            y_pels_per_meter: 0,
            clr_used: 0,
            clr_important: 0,
        }
    }
}

impl Default for BitmapInfoHeader {
    fn default() -> (h: Self)
        ensures
            h == BitmapInfoHeader::zeroed(),
    {
        BitmapInfoHeader {
            size: 0,
            width: 0,
            height: 0,
            planes: 0,
            bit_count: 0,
            compression: 0,
            size_image: 0,
            x_pels_per_meter: 0,
            y_pels_per_meter: 0,
            clr_used: 0,
            clr_important: 0,
        }
    }
}

/// The platform's bitmap: its header, its size, and its pixels, row by row.
#[derive(Debug)]
pub struct Win32OffscreenBuffer {
    pub info: BitmapInfoHeader,
    pub width: u32,
    pub height: u32,
    pub pitch: u32,
    pub pixels: Vec<u32>,
}

impl Win32OffscreenBuffer {
    /// The bitmap holds one pixel per position of its size, and its header
    /// gives that size.
    pub open spec fn wf(&self) -> bool {
        &&& self.pixels@.len() == self.width * self.height
        &&& self.info.width == self.width as i32
        &&& self.info.height == self.height as i32
    }
}

impl Default for Win32OffscreenBuffer {
    fn default() -> (b: Self)
        ensures
            b.info == BitmapInfoHeader::zeroed(),
            b.width == 0,
            b.height == 0,
            b.pitch == 0,
            b.pixels@ == Seq::<u32>::empty(),
            b.wf(),
    {
        Win32OffscreenBuffer {
            info: BitmapInfoHeader::default(),
            width: 0,
            height: 0,
            pitch: 0,
            pixels: Vec::new(),
        }
    }
}

/// A rectangle in window coordinates.
#[derive(Clone, Copy, Debug, PartialEq, Eq, Structural)]
pub struct Rect {
    pub left: i32,
    pub top: i32,
    pub right: i32,
    pub bottom: i32,
}

/// What XInput reports of a gamepad: its button bits and its four stick axes.
#[derive(Clone, Copy, Debug, PartialEq, Eq, Structural)]
pub struct GamepadState {
    pub buttons: u16,
    pub thumb_lx: i16,
    pub thumb_ly: i16,
    pub thumb_rx: i16,
    pub thumb_ry: i16,
}

/// What a key message asks of the window beyond the game input.
#[derive(Clone, Copy, Debug, PartialEq, Eq, Structural)]
pub enum KeyMessageEffect {
    Nothing,
    ToggleFullscreen,
}

/// What becomes of a message taken from the thread's queue.
#[derive(Clone, Copy, Debug, PartialEq, Eq, Structural)]
pub enum MessageOutcome {
    /// The message was consumed here.
    Handled,
    /// The message was consumed here, and the window must toggle fullscreen.
    ToggleFullscreen,
    /// The message goes to `TranslateMessage` and `DispatchMessageW`.
    Dispatch,
}

/// What the window procedure does with a message.
#[derive(Clone, Copy, Debug, PartialEq, Eq, Structural)]
pub enum CallbackAction {
    /// Return 0.
    Nothing,
    /// Paint the bitmap into the window, then return 0.
    Paint,
    /// Return what `DefWindowProcW` returns.
    DefaultProcedure,
}

/// The first half of toggling fullscreen, decided from the window style.
#[derive(Clone, Copy, Debug, PartialEq, Eq, Structural)]
pub enum FullscreenStep {
    /// The window is decorated: save its placement, find its monitor, and
    /// cover the monitor.
    Enter,
    /// The window covers its monitor: give it `style`, restore its saved
    /// placement, and let it keep that position and size.
    Leave { style: isize },
}

/// A window style together with a position and a size.
#[derive(Clone, Copy, Debug, PartialEq, Eq, Structural)]
pub struct WindowLayout {
    pub style: isize,
    pub x: i32,
    pub y: i32,
    pub width: i32,
    pub height: i32,
}

/// One drawing call that shows the bitmap in the window.
#[derive(Clone, Copy, Debug, PartialEq, Eq, Structural)]
pub enum BlitCommand {
    /// Fill a rectangle with black (`PatBlt` with `BLACKNESS`).
    Blackness { x: i32, y: i32, width: i32, height: i32 },
    /// Copy the bitmap's source rectangle to a destination rectangle
    /// (`StretchDIBits`).
    StretchPixels {
        dest_x: i32,
        dest_y: i32,
        dest_width: i32,
        dest_height: i32,
        src_x: i32,
        src_y: i32,
        src_width: i32,
        src_height: i32,
    },
}

/// The state of the Windows platform layer.
pub struct Win32Platform {
    /// Ticks per second of the performance counter.
    pub perf_count_frequency: i64,
    /// Size in bytes of the block that holds the game's memory.
    pub game_memory_block_total_size: u64,
    /// Whether the main loop goes on.
    pub is_running: bool,
    /// The bitmap the game draws into.
    pub offscreen_buffer: Win32OffscreenBuffer,
    /// The executable's full file name, null-padded UTF-16.
    pub exe_filename: [u16; 260],
    /// The length of the directory part of `exe_filename`.
    pub one_past_last_exe_file_name_slash: usize,
}

impl Win32Platform {
    /// The directory part of the executable's name lies within its buffer,
    /// and the bitmap is consistent with its size.
    pub open spec fn wf(&self) -> bool {
        &&& self.one_past_last_exe_file_name_slash <= MAX_PATH
        &&& self.offscreen_buffer.wf()
    }

    /// A platform that has not started: nothing allocated, no bitmap, no file name.
    pub fn new() -> (p: Self)
        ensures
            p.wf(),
            p.perf_count_frequency == 0,
            p.game_memory_block_total_size == 0,
            !p.is_running,
            p.offscreen_buffer.info == BitmapInfoHeader::zeroed(),
            p.offscreen_buffer.width == 0,
            p.offscreen_buffer.height == 0,
            p.offscreen_buffer.pitch == 0,
            p.offscreen_buffer.pixels@ == Seq::<u32>::empty(),
            forall|i: int| 0 <= i < MAX_PATH ==> #[trigger] p.exe_filename@[i] == 0,
            p.one_past_last_exe_file_name_slash == 0,
    {
        Win32Platform::default()
    }

}

impl Default for Win32Platform {
    fn default() -> (p: Self)
        ensures
            p.wf(),
            p.perf_count_frequency == 0,
            p.game_memory_block_total_size == 0,
            !p.is_running,
            p.offscreen_buffer.info == BitmapInfoHeader::zeroed(),
            p.offscreen_buffer.width == 0,
            p.offscreen_buffer.height == 0,
            p.offscreen_buffer.pitch == 0,
            p.offscreen_buffer.pixels@ == Seq::<u32>::empty(),
            forall|i: int| 0 <= i < MAX_PATH ==> #[trigger] p.exe_filename@[i] == 0,
            p.one_past_last_exe_file_name_slash == 0,
    {
        Win32Platform {
            perf_count_frequency: 0,
            game_memory_block_total_size: 0,
            is_running: false,
            offscreen_buffer: Win32OffscreenBuffer::default(),
            exe_filename: [0u16; 260],
            one_past_last_exe_file_name_slash: 0,
        }
    }
}

/// The message taken from the queue stops the platform: `WM_QUIT`, or a key
/// message that presses F4 while Alt is held.
pub open spec fn message_stops(message: u32, wparam: usize, lparam: isize) -> bool {
    ||| message == WM_QUIT
    ||| is_key_message(message) && key_was_down(lparam) != key_is_down(lparam) && wparam as u16
        == VK_F4 && key_is_down(lparam) && key_alt_down(lparam)
}

/// Whether the platform still runs after handling `messages` (message,
/// `wParam`, `lParam`) in order, starting from `running`.
pub open spec fn running_after_messages(running: bool, messages: Seq<(u32, usize, isize)>) -> bool
    decreases messages.len(),
{
    if messages.len() == 0 {
        running
    } else {
        let (message, wparam, lparam) = messages.last();
        running_after_messages(running, messages.drop_last()) && !message_stops(
            message,
            wparam,
            lparam,
        )
    }
}

/// Handling queued messages never starts the platform again, and stops it
/// exactly when one of them is `WM_QUIT` or an Alt+F4 press.
pub proof fn lemma_only_stop_messages_end_the_loop(
    running: bool,
    messages: Seq<(u32, usize, isize)>,
)
    ensures
        running_after_messages(running, messages) == (running && forall|i: int|
            0 <= i < messages.len() ==> !message_stops(
                #[trigger] messages[i].0,
                messages[i].1,
                messages[i].2,
            )),
    decreases messages.len(),
{
    if messages.len() > 0 {
        let rest = messages.drop_last();
        lemma_only_stop_messages_end_the_loop(running, rest);
        assert forall|i: int| 0 <= i < rest.len() implies rest[i] == messages[i] by {}
    }
}

/// What handling a message `message` (with `wparam`, `lparam`) taken from the
/// queue makes of the platform `old_platform` and the keyboard controller
/// `old_keyboard`: `WM_QUIT` stops the platform, a key message is handled as
/// `key_message_outcome` says (a fullscreen toggle becoming the outcome), and
/// any other message is dispatched untouched.
pub open spec fn pending_message_outcome(
    old_platform: Win32Platform,
    old_keyboard: ControllerInput,
    message: u32,
    wparam: usize,
    lparam: isize,
    platform: Win32Platform,
    keyboard: ControllerInput,
    outcome: MessageOutcome,
) -> bool {
    if message == WM_QUIT {
        &&& platform == (Win32Platform { is_running: false, ..old_platform })
        &&& keyboard == old_keyboard
        &&& outcome == MessageOutcome::Handled
    } else if is_key_message(message) {
        &&& outcome != MessageOutcome::Dispatch
        &&& key_message_outcome(
            old_platform,
            old_keyboard,
            wparam,
            lparam,
            platform,
            keyboard,
            if outcome == MessageOutcome::ToggleFullscreen {
                KeyMessageEffect::ToggleFullscreen
            } else {
                KeyMessageEffect::Nothing
            },
        )
    } else {
        &&& platform == old_platform
        &&& keyboard == old_keyboard
        &&& outcome == MessageOutcome::Dispatch
    }
}

/// Routing a queued message: each of the four key messages `WM_KEYDOWN`
/// (256), `WM_KEYUP` (257), `WM_SYSKEYDOWN` (260) and `WM_SYSKEYUP` (261) goes
/// to the key handler and is never dispatched; `WM_QUIT` (18) stops the
/// platform and touches nothing else; every other message is dispatched and
/// changes nothing. In particular a key message that presses F4 (115) with Alt
/// held, such as `WM_SYSKEYDOWN` with `lParam` `1 << 29`, stops the platform.
pub proof fn lemma_pending_message_routing(
    old_platform: Win32Platform,
    old_keyboard: ControllerInput,
    message: u32,
    wparam: usize,
    lparam: isize,
    platform: Win32Platform,
    keyboard: ControllerInput,
    outcome: MessageOutcome,
)
    requires
        pending_message_outcome(
            old_platform,
            old_keyboard,
            message,
            wparam,
            lparam,
            platform,
            keyboard,
            outcome,
        ),
    ensures
        (message == 256u32 || message == 257u32 || message == 260u32 || message == 261u32) ==> {
            &&& outcome != MessageOutcome::Dispatch
            &&& key_message_outcome(
                old_platform,
                old_keyboard,
                wparam,
                lparam,
                platform,
                keyboard,
                if outcome == MessageOutcome::ToggleFullscreen {
                    KeyMessageEffect::ToggleFullscreen
                } else {
                    KeyMessageEffect::Nothing
                },
            )
        },
        message == 18u32 ==> {
            &&& platform == (Win32Platform { is_running: false, ..old_platform })
            &&& keyboard == old_keyboard
            &&& outcome == MessageOutcome::Handled
        },
        !(message == 18u32 || message == 256u32 || message == 257u32 || message == 260u32
            || message == 261u32) ==> {
            &&& platform == old_platform
            &&& keyboard == old_keyboard
            &&& outcome == MessageOutcome::Dispatch
        },
        (message == 256u32 || message == 257u32 || message == 260u32 || message == 261u32)
            && wparam as u16 == 115u16 && lparam & (1isize << 31u32) == 0 && lparam & (1isize
            << 30u32) == 0 && lparam & (1isize << 29u32) != 0 ==> !platform.is_running,
{
    if message == 256u32 || message == 257u32 || message == 260u32 || message == 261u32 {
        crate::platform_input::lemma_key_message_effects(
            old_platform,
            old_keyboard,
            wparam,
            lparam,
            platform,
            keyboard,
            if outcome == MessageOutcome::ToggleFullscreen {
                KeyMessageEffect::ToggleFullscreen
            } else {
                KeyMessageEffect::Nothing
            },
        );
    }
}

/// A message stops the platform exactly when it is `WM_QUIT` (18), or one of
/// the key messages 256, 257, 260, 261 whose `lParam` says the key was up
/// (bit 31 clear) and is now down (bit 30 clear) with Alt held (bit 29), for
/// the key F4 (115).
pub proof fn lemma_stop_messages(message: u32, wparam: usize, lparam: isize)
    ensures
        message_stops(message, wparam, lparam) == (message == 18u32 || ((message == 256u32
            || message == 257u32 || message == 260u32 || message == 261u32) && wparam as u16
            == 115u16 && lparam & (1isize << 31u32) == 0 && lparam & (1isize << 30u32) == 0
            && lparam & (1isize << 29u32) != 0)),
{
}

/// The message is one of the key messages.
pub open spec fn is_key_message(message: u32) -> bool {
    message == WM_SYSKEYDOWN || message == WM_SYSKEYUP || message == WM_KEYUP || message
        == WM_KEYDOWN
}

impl Win32Platform {
    /// Handles one message taken from the thread's queue: `WM_QUIT` stops the
    /// platform, key messages go to `handle_key_message`, and every other
    /// message is to be dispatched to the window.
    pub fn process_pending_message(
        &mut self,
        message: u32,
        wparam: usize,
        lparam: isize,
        keyboard_controller: &mut ControllerInput,
    ) -> (outcome: MessageOutcome)
        requires
            is_key_message(message) ==> can_take_key_message(
                wparam,
                lparam,
                *old(keyboard_controller),
            ),
        ensures
            pending_message_outcome(
                *old(self),
                *old(keyboard_controller),
                message,
                wparam,
                lparam,
                *final(self),
                *final(keyboard_controller),
                outcome,
            ),
            final(self).is_running == (old(self).is_running && !message_stops(
                message,
                wparam,
                lparam,
            )),
            old(self).wf() ==> final(self).wf(),
            message == WM_QUIT ==> {
                &&& *final(self) == (Win32Platform { is_running: false, ..*old(self) })
                &&& *final(keyboard_controller) == *old(keyboard_controller)
                &&& outcome == MessageOutcome::Handled
            },
            is_key_message(message) ==> {
                let vk = wparam as u16;
                &&& outcome == (if key_was_down(lparam) != key_is_down(lparam) && key_button(vk) is None
                    && vk == VK_F11 && key_is_down(lparam) {
                    MessageOutcome::ToggleFullscreen
                } else {
                    MessageOutcome::Handled
                })
                &&& final(self).is_running == (old(self).is_running && !(key_was_down(lparam)
                    != key_is_down(lparam) && vk == VK_F4 && key_is_down(lparam) && key_alt_down(lparam)))
                &&& *final(self) == (Win32Platform { is_running: final(self).is_running, ..*old(self) })
                &&& *final(keyboard_controller) == (ControllerInput {
                    buttons: final(keyboard_controller).buttons,
                    ..*old(keyboard_controller)
                })
                &&& final(keyboard_controller).buttons@ == (if key_was_down(lparam) != key_is_down(lparam)
                    && key_button(vk) is Some {
                    old(keyboard_controller).buttons@.update(
                        key_button(vk)->0.button_index(),
                        after_key_event(
                            old(keyboard_controller).buttons@[key_button(vk)->0.button_index()],
                            key_is_down(lparam),
                        ),
                    )
                } else {
                    old(keyboard_controller).buttons@
                })
            },
            message != WM_QUIT && !is_key_message(message) ==> {
                &&& *final(self) == *old(self)
                &&& *final(keyboard_controller) == *old(keyboard_controller)
                &&& outcome == MessageOutcome::Dispatch
            },
    {
        if message == WM_QUIT {
            self.is_running = false;
            MessageOutcome::Handled
        } else if message == WM_SYSKEYDOWN || message == WM_SYSKEYUP || message == WM_KEYUP
            || message == WM_KEYDOWN {
            match self.handle_key_message(wparam, lparam, keyboard_controller) {
                KeyMessageEffect::ToggleFullscreen => MessageOutcome::ToggleFullscreen,
                KeyMessageEffect::Nothing => MessageOutcome::Handled,
            }
        } else {
            MessageOutcome::Dispatch
        }
    }

    /// What the window procedure does with `message`: `WM_SIZE` is ignored,
    /// `WM_PAINT` paints the bitmap, `WM_CLOSE` stops the platform, and every
    /// other message goes to the default window procedure.
    pub fn window_message_action(&mut self, message: u32) -> (action: CallbackAction)
        ensures
            old(self).wf() ==> final(self).wf(),
            *final(self) == (Win32Platform {
                is_running: old(self).is_running && message != WM_CLOSE,
                ..*old(self)
            }),
            action == (if message == WM_SIZE || message == WM_CLOSE {
                CallbackAction::Nothing
            } else if message == WM_PAINT {
                CallbackAction::Paint
            } else {
                CallbackAction::DefaultProcedure
            }),
    {
        if message == WM_SIZE {
            CallbackAction::Nothing
        } else if message == WM_PAINT {
            CallbackAction::Paint
        } else if message == WM_CLOSE {
            self.is_running = false;
            CallbackAction::Nothing
        } else {
            CallbackAction::DefaultProcedure
        }
    }

}

impl Win32Platform {
    /// The number of controller slots to poll: the keyboard's slot and one per
    /// XInput user, but no more than `controllers_len`. Gamepads occupy the
    /// slots from 1 up to this bound.
    pub fn max_controller_count(controllers_len: usize) -> (count: usize)
        ensures
            count == (if XUSER_MAX_COUNT + 1 < controllers_len {
                XUSER_MAX_COUNT + 1
            } else {
                controllers_len as int
            }),
    {
        let xuser_max_count: usize = (XUSER_MAX_COUNT + 1) as usize;
        if xuser_max_count < controllers_len {
            xuser_max_count
        } else {
            controllers_len
        }
    }

    /// The game's memory: 256 MiB of permanent and 1 GiB of transient storage,
    /// not yet attached to a block; records their sum as the size of the block
    /// to allocate.
    pub fn plan_game_memory(&mut self) -> (memory: GameMemory)
        ensures
            old(self).wf() ==> final(self).wf(),
            memory == (GameMemory {
                permanent_storage_size: 268435456,
                transient_storage_size: 1073741824,
                ..GameMemory::empty()
            }),
            *final(self) == (Win32Platform {
                game_memory_block_total_size: (memory.permanent_storage_size
                    + memory.transient_storage_size) as u64,
                ..*old(self)
            }),
    {
        let mut game_memory = GameMemory::default();
        game_memory.permanent_storage_size = megabytes(256);
        game_memory.transient_storage_size = gigabytes(1);
        self.game_memory_block_total_size = game_memory.permanent_storage_size
            + game_memory.transient_storage_size;
        game_memory
    }
}

} // verus!
