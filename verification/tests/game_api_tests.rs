use handmade::game_api::{
    ButtonState, ControllerButton, ControllerInput, GameMemory, Input, MouseButton,
    OffscreenBuffer, BITMAP_BYTES_PER_PIXEL, CONTROLLER_BUTTON_COUNT, CONTROLLER_COUNT, GAME_DLL,
    MOUSE_BUTTON_COUNT,
};
use handmade::units::{gigabytes, kilobytes, megabytes, terabytes};

#[test]
fn button_state_default_is_released() {
    let b = ButtonState::default();
    assert!(!b.is_down);
    assert_eq!(b.half_transition_count, 0);
}

#[test]
fn controller_input_default_is_idle() {
    let c = ControllerInput::default();
    assert_eq!(c.buttons.len(), CONTROLLER_BUTTON_COUNT);
    assert!(c.buttons.iter().all(|b| *b == ButtonState::default()));
    assert_eq!(c.left_stick_x, 0);
    assert_eq!(c.right_stick_y, 0);
    assert!(!c.is_analog);
    assert!(!c.is_connected);
}

#[test]
fn input_default_is_idle() {
    let i = Input::default();
    assert_eq!(i.mouse_buttons.len(), MOUSE_BUTTON_COUNT);
    assert_eq!(i.controllers.len(), CONTROLLER_COUNT);
    assert!(i.controllers.iter().all(|c| *c == ControllerInput::default()));
    assert!(!i.executable_reloaded);
    assert_eq!((i.mouse_x, i.mouse_y, i.mouse_wheel), (0, 0, 0));
}

#[test]
fn controller_button_indices_follow_declaration_order() {
    let all = [
        ControllerButton::Up,
        ControllerButton::Right,
        ControllerButton::Down,
        ControllerButton::Left,
        ControllerButton::LeftShoulder,
        ControllerButton::RightShoulder,
        ControllerButton::South,
        ControllerButton::West,
        ControllerButton::North,
        ControllerButton::East,
        ControllerButton::Start,
        ControllerButton::Count,
    ];
    for (i, b) in all.iter().enumerate() {
        assert_eq!(b.index(), i);
    }
    assert_eq!(ControllerButton::Count.index(), CONTROLLER_BUTTON_COUNT);
    assert_eq!(MouseButton::Left.index(), 0);
    assert_eq!(MouseButton::Right.index(), 1);
    assert_eq!(MouseButton::Middle.index(), 2);
    assert_eq!(MouseButton::Count.index(), MOUSE_BUTTON_COUNT);
}

#[test]
fn get_button_updates_only_its_slot() {
    let mut c = ControllerInput::default();
    {
        let b = c.get_button(ControllerButton::Start);
        b.is_down = true;
        b.half_transition_count = 1;
    }
    assert!(c.buttons[10].is_down);
    assert_eq!(c.buttons[10].half_transition_count, 1);
    for i in 0..10 {
        assert_eq!(c.buttons[i], ButtonState::default());
    }
    assert_eq!(c.get_button(ControllerButton::Start).half_transition_count, 1);
}

#[test]
fn get_mouse_button_updates_only_its_slot() {
    let mut input = Input::default();
    input.get_mouse_button(MouseButton::Middle).is_down = true;
    assert!(input.mouse_buttons[2].is_down);
    assert!(!input.mouse_buttons[0].is_down);
    assert!(!input.mouse_buttons[1].is_down);
}

#[test]
fn get_controller_input_updates_only_its_slot() {
    let mut input = Input::default();
    input.get_controller_input(3).is_connected = true;
    for i in 0..CONTROLLER_COUNT {
        assert_eq!(input.controllers[i].is_connected, i == 3);
    }
}

#[test]
fn memory_units_multiply_by_1024() {
    assert_eq!(kilobytes(1), 1024);
    assert_eq!(kilobytes(3), 3072);
    assert_eq!(megabytes(256), 268_435_456);
    assert_eq!(gigabytes(1), 1_073_741_824);
    assert_eq!(terabytes(1), 1_099_511_627_776);
    assert_eq!(terabytes(2), 2 * gigabytes(1024));
}

#[test]
fn attach_block_places_transient_after_permanent() {
    let mut m = GameMemory::default();
    m.permanent_storage_size = megabytes(256);
    m.transient_storage_size = gigabytes(1);
    assert!(m.attach_block(0x1000_0000));
    assert_eq!(m.permanent_storage, 0x1000_0000);
    assert_eq!(m.transient_storage, 0x1000_0000 + 268_435_456);
    assert!(!m.is_initialized);
}

#[test]
fn attach_block_reports_a_null_block() {
    let mut m = GameMemory::default();
    m.permanent_storage_size = 4096;
    assert!(!m.attach_block(0));
    assert_eq!(m.permanent_storage, 0);
    assert_eq!(m.transient_storage, 4096);
}

#[test]
fn attach_block_with_empty_permanent_storage_at_null() {
    let mut m = GameMemory::default();
    assert!(!m.attach_block(0));
    assert_eq!(m.transient_storage, 0);
}

#[test]
fn game_api_constants() {
    assert_eq!(GAME_DLL, "game");
    assert_eq!(BITMAP_BYTES_PER_PIXEL, 4);
    let b = OffscreenBuffer { width: 2, height: 3, pitch: 8 };
    assert_eq!(b, OffscreenBuffer { width: 2, height: 3, pitch: 8 });
}

#[test]
fn attach_block_wraps_around_the_address_space() {
    let mut m = GameMemory::default();
    m.permanent_storage_size = 20;
    assert!(m.attach_block(usize::MAX - 9));
    assert_eq!(m.permanent_storage, usize::MAX - 9);
    assert_eq!(m.transient_storage, 10);
    assert!(!m.attach_block(usize::MAX - 19));
    assert_eq!(m.transient_storage, 0);
}
