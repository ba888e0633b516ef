use vstd::prelude::*;

verus! {

/// Base name of the game's dynamic library (the game crate's package name).
pub const GAME_DLL: &'static str = "game";

/// Bytes per pixel of the offscreen bitmap (32-bit pixels).
pub const BITMAP_BYTES_PER_PIXEL: u32 = 4;

/// Number of buttons on a controller (`ControllerButton::Count`).
pub const CONTROLLER_BUTTON_COUNT: usize = 11;

/// Number of mouse buttons (`MouseButton::Count`).
pub const MOUSE_BUTTON_COUNT: usize = 3;

/// Stick units in a full deflection: `32768 * 32767`.
pub const STICK_UNITS_PER_DEFLECTION: i32 = 1073709056;

/// Number of controller slots: four gamepads and the keyboard.
pub const CONTROLLER_COUNT: usize = 5;

/// The sizes and the location of the memory that the platform hands the game.
///
/// The storage areas are given by their addresses: `permanent_storage` is the
/// start of the block, `transient_storage` the address just past the permanent
/// part. An address of 0 means that no memory is attached.
#[derive(Clone, Copy, Debug, PartialEq, Eq, Structural)]
pub struct GameMemory {
    pub permanent_storage_size: u64,
    pub transient_storage_size: u64,
    pub permanent_storage: usize,
    pub transient_storage: usize,
    pub is_initialized: bool,
}

impl GameMemory {
    pub open spec fn empty() -> GameMemory {
        GameMemory {
            permanent_storage_size: 0,
            transient_storage_size: 0,
            permanent_storage: 0,
            transient_storage: 0,
            is_initialized: false,
        }
    }

    /// Attaches a memory block that starts at address `base`: the permanent
    /// storage starts at `base` and the transient storage right after it (the
    /// address wraps around as machine addresses do). Returns whether both
    /// storage areas have a non-null address.
    pub fn attach_block(&mut self, base: usize) -> (ok: bool)
        ensures
            *final(self) == (GameMemory {
                permanent_storage: base,
                transient_storage: address_after(base, old(self).permanent_storage_size),
                ..*old(self)
            }),
            ok == (base != 0 && address_after(base, old(self).permanent_storage_size) != 0),
    {
        self.permanent_storage = base;
        let offset: usize = #[verifier::truncate] (self.permanent_storage_size as usize);
        self.transient_storage = base.wrapping_add(offset);
        !(self.permanent_storage == 0 || self.transient_storage == 0)
    }
}

/// The address `size` bytes past `base`, wrapping around the address space
/// (the size taken as a machine-sized number).
pub open spec fn address_after(base: usize, size: u64) -> usize {
    let sum = base + (size as usize);
    if sum <= usize::MAX {
        sum as usize
    } else {
        (sum - usize::MAX - 1) as usize
    }
}

/// The address `size` bytes past `base` is `base + size` taken modulo the size
/// of the address space.
pub proof fn lemma_address_after_wraps(base: usize, size: u64)
    ensures
        ({
            let sum = base + (size as usize);
            let space = usize::MAX + 1;
            &&& 0 <= address_after(base, size) < space
            &&& (sum - address_after(base, size)) % space == 0
        }),
{
    let sum = base + (size as usize);
    let space = usize::MAX + 1;
    if sum > usize::MAX {
        assert(sum - address_after(base, size) == space);
    } else {
        assert(sum - address_after(base, size) == 0);
    }
}

/// Once game memory is attached at `base` to a block of `total_size` bytes
/// that fits the address space and holds both storage areas, the two areas lie
/// side by side and together fill exactly `[base, base + total_size)`: the
/// permanent storage first, the transient storage right after it.
pub proof fn lemma_game_memory_layout(memory: GameMemory, base: usize, total_size: u64)
    requires
        total_size == memory.permanent_storage_size + memory.transient_storage_size,
        base + total_size <= usize::MAX,
        memory.permanent_storage == base,
        memory.transient_storage == address_after(base, memory.permanent_storage_size),
    ensures
        memory.permanent_storage + memory.permanent_storage_size == memory.transient_storage,
        memory.transient_storage + memory.transient_storage_size == base + total_size,
        memory.permanent_storage <= memory.transient_storage,
{
}

impl Default for GameMemory {
    fn default() -> (m: Self)
        ensures
            m == GameMemory::empty(),
    {
        GameMemory {
            permanent_storage_size: 0,
            transient_storage_size: 0,
            permanent_storage: 0,
            transient_storage: 0,
            is_initialized: false,
        }
    }
}

/// The state of one digital button during a frame: whether it is held, and
/// how many times it went up or down during the frame.
#[derive(Clone, Copy, Debug, PartialEq, Eq, Structural)]
pub struct ButtonState {
    pub is_down: bool,
    pub half_transition_count: u32,
}

impl ButtonState {
    pub open spec fn released() -> ButtonState {
        ButtonState { is_down: false, half_transition_count: 0 }
    }
}

impl Default for ButtonState {
    fn default() -> (s: Self)
        ensures
            s == ButtonState::released(),
    {
        ButtonState { is_down: false, half_transition_count: 0 }
    }
}

/// The logical buttons of a controller; `Count` is their number.
#[derive(Clone, Copy, Debug, PartialEq, Eq, Structural)]
pub enum ControllerButton {
    Up,
    Right,
    Down,
    Left,
    LeftShoulder,
    RightShoulder,
    South,
    West,
    North,
    East,
    Start,
    Count,
}

impl ControllerButton {
    /// The position of the button in `ControllerInput::buttons`.
    pub open spec fn button_index(self) -> int {
        match self {
            ControllerButton::Up => 0,
            ControllerButton::Right => 1,
            ControllerButton::Down => 2,
            ControllerButton::Left => 3,
            ControllerButton::LeftShoulder => 4,
            ControllerButton::RightShoulder => 5,
            ControllerButton::South => 6,
            ControllerButton::West => 7,
            ControllerButton::North => 8,
            ControllerButton::East => 9,
            ControllerButton::Start => 10,
            ControllerButton::Count => 11,
        }
    }

    /// The position of the button in `ControllerInput::buttons`.
    pub fn index(self) -> (i: usize)
        ensures
            i == self.button_index(),
    {
        match self {
            ControllerButton::Up => 0,
            ControllerButton::Right => 1,
            ControllerButton::Down => 2,
            ControllerButton::Left => 3,
            ControllerButton::LeftShoulder => 4,
            ControllerButton::RightShoulder => 5,
            ControllerButton::South => 6,
            ControllerButton::West => 7,
            ControllerButton::North => 8,
            ControllerButton::East => 9,
            ControllerButton::Start => 10,
            ControllerButton::Count => 11,
        }
    }
}

/// Every button other than `Count` has its own slot in a controller's button array.
pub proof fn lemma_controller_button_slots(a: ControllerButton, b: ControllerButton)
    requires
        a != ControllerButton::Count,
        b != ControllerButton::Count,
    ensures
        0 <= a.button_index() < CONTROLLER_BUTTON_COUNT,
        a != b ==> a.button_index() != b.button_index(),
{
}

/// The buttons occupy the controller's slots in their declaration order:
/// Up, Right, Down, Left, LeftShoulder, RightShoulder, South, West, North,
/// East, Start; `Count` is one past the last.
pub proof fn lemma_controller_button_order()
    ensures
        ControllerButton::Up.button_index() == 0,
        ControllerButton::Right.button_index() == 1,
        ControllerButton::Down.button_index() == 2,
        ControllerButton::Left.button_index() == 3,
        ControllerButton::LeftShoulder.button_index() == 4,
        ControllerButton::RightShoulder.button_index() == 5,
        ControllerButton::South.button_index() == 6,
        ControllerButton::West.button_index() == 7,
        ControllerButton::North.button_index() == 8,
        ControllerButton::East.button_index() == 9,
        ControllerButton::Start.button_index() == 10,
        ControllerButton::Count.button_index() == 11,
        MouseButton::Left.button_index() == 0,
        MouseButton::Right.button_index() == 1,
        MouseButton::Middle.button_index() == 2,
        MouseButton::Count.button_index() == 3,
{
}

/// The input of one controller during a frame.
///
/// A stick axis is kept as an exact position in units of
/// `1 / STICK_UNITS_PER_DEFLECTION`: `u` units are the position `u / 1073709056`,
/// so `-1073709056` and `1073709056` are the full deflections `-1.0` and
/// `1.0`. A reading `r` of the stick divided by 32768 is `r * 32767` units, one
/// divided by 32767 is `r * 32768` units.
#[derive(Clone, Copy, Debug, PartialEq, Eq)]
pub struct ControllerInput {
    pub buttons: [ButtonState; 11],
    pub left_stick_x: i32,
    pub left_stick_y: i32,
    pub right_stick_x: i32,
    pub right_stick_y: i32,
    pub is_analog: bool,
    pub is_connected: bool,
}

impl ControllerInput {
    /// A disconnected, centred controller with every button released.
    pub open spec fn is_idle(self) -> bool {
        &&& forall|k: int| 0 <= k < CONTROLLER_BUTTON_COUNT ==> #[trigger] self.buttons@[k]
            == ButtonState::released()
        &&& self.left_stick_x == 0
        &&& self.left_stick_y == 0
        &&& self.right_stick_x == 0
        &&& self.right_stick_y == 0
        &&& !self.is_analog
        &&& !self.is_connected
    }

    /// The state of `button_name`, to read or to update in place.
    pub fn get_button(&mut self, button_name: ControllerButton) -> (r: &mut ButtonState)
        requires
            button_name != ControllerButton::Count,
        ensures
            *r == old(self).buttons@[button_name.button_index()],
            *final(self) == (ControllerInput {
                buttons: final(self).buttons,
                ..*old(self)
            }),
            final(self).buttons@ == old(self).buttons@.update(
                button_name.button_index(),
                *final(r),
            ),
    {
        let idx: usize = button_name.index();
        &mut self.buttons[idx]
    }
}

impl Default for ControllerInput {
    fn default() -> (c: Self)
        ensures
            c.is_idle(),
    {
        let released = ButtonState { is_down: false, half_transition_count: 0 };
        ControllerInput {
            buttons: [released; 11],
            left_stick_x: 0,
            left_stick_y: 0,
            right_stick_x: 0,
            right_stick_y: 0,
            is_analog: false,
            is_connected: false,
        }
    }
}

/// The mouse buttons; `Count` is their number.
#[derive(Clone, Copy, Debug, PartialEq, Eq, Structural)]
pub enum MouseButton {
    Left,
    Right,
    Middle,
    Count,
}

impl MouseButton {
    /// The position of the button in `Input::mouse_buttons`.
    pub open spec fn button_index(self) -> int {
        match self {
            MouseButton::Left => 0,
            MouseButton::Right => 1,
            MouseButton::Middle => 2,
            MouseButton::Count => 3,
        }
    }

    /// The position of the button in `Input::mouse_buttons`.
    pub fn index(self) -> (i: usize)
        ensures
            i == self.button_index(),
    {
        match self {
            MouseButton::Left => 0,
            MouseButton::Right => 1,
            MouseButton::Middle => 2,
            MouseButton::Count => 3,
        }
    }
}

/// The input of one frame: the mouse and the controllers (slot 0 is the
/// keyboard, slots 1 to 4 the gamepads).
///
/// The length of the frame is a floating-point value and travels beside this
/// record.
#[derive(Clone, Copy, Debug, PartialEq, Eq)]
pub struct Input {
    pub mouse_buttons: [ButtonState; 3],
    pub controllers: [ControllerInput; 5],
    pub executable_reloaded: bool,
    pub mouse_x: i32,
    pub mouse_y: i32,
    pub mouse_wheel: i32,
}

impl Input {
    /// The state of `button_name`, to read or to update in place.
    pub fn get_mouse_button(&mut self, button_name: MouseButton) -> (r: &mut ButtonState)
        requires
            button_name != MouseButton::Count,
        ensures
            *r == old(self).mouse_buttons@[button_name.button_index()],
            *final(self) == (Input { mouse_buttons: final(self).mouse_buttons, ..*old(self) }),
            final(self).mouse_buttons@ == old(self).mouse_buttons@.update(
                button_name.button_index(),
                *final(r),
            ),
    {
        let idx: usize = button_name.index();
        &mut self.mouse_buttons[idx]
    }

    /// The controller in slot `controller_index`, to read or to update in place.
    pub fn get_controller_input(&mut self, controller_index: usize) -> (r: &mut ControllerInput)
        requires
            controller_index < CONTROLLER_COUNT,
        ensures
            *r == old(self).controllers@[controller_index as int],
            *final(self) == (Input { controllers: final(self).controllers, ..*old(self) }),
            final(self).controllers@ == old(self).controllers@.update(
                controller_index as int,
                *final(r),
            ),
    {
        &mut self.controllers[controller_index]
    }
}

impl Default for Input {
    fn default() -> (i: Self)
        ensures
            forall|k: int| 0 <= k < MOUSE_BUTTON_COUNT ==> #[trigger] i.mouse_buttons@[k]
                == ButtonState::released(),
            forall|k: int| 0 <= k < CONTROLLER_COUNT ==> (#[trigger] i.controllers@[k]).is_idle(),
            !i.executable_reloaded,
            i.mouse_x == 0,
            i.mouse_y == 0,
            i.mouse_wheel == 0,
    {
        let released = ButtonState { is_down: false, half_transition_count: 0 };
        let controller = ControllerInput::default();
        Input {
            mouse_buttons: [released; 3],
            controllers: [controller; 5],
            executable_reloaded: false,
            mouse_x: 0,
            mouse_y: 0,
            mouse_wheel: 0,
        }
    }
}

/// The bitmap the game draws into: its size in pixels and its row pitch in
/// bytes. The pixels themselves are handed over by the platform beside it.
#[derive(Clone, Copy, Debug, PartialEq, Eq, Structural)]
pub struct OffscreenBuffer {
    pub width: u32,
    pub height: u32,
    pub pitch: u32,
}

} // verus!
