use handmade::game_api::{ButtonState, ControllerButton, ControllerInput, Input};
use handmade::win32::{
    MAX_PATH, VK_A, VK_F11, VK_F4, VK_RETURN, VK_SPACE, VK_W, WM_CLOSE, WM_KEYDOWN, WM_KEYUP,
    WM_PAINT, WM_QUIT, WM_SETCURSOR, WM_SIZE, WS_OVERLAPPEDWINDOW, XINPUT_GAMEPAD_A,
    XINPUT_GAMEPAD_DPAD_DOWN, XINPUT_GAMEPAD_DPAD_RIGHT, XINPUT_GAMEPAD_DPAD_UP,
    XINPUT_GAMEPAD_LEFT_THUMB_DEADZONE, XINPUT_GAMEPAD_RIGHT_THUMB_DEADZONE, XINPUT_GAMEPAD_X,
};
use handmade::win32_platform::{
    BitmapInfoHeader, BlitCommand, CallbackAction, FullscreenStep, GamepadState,
    KeyMessageEffect, MessageOutcome, Rect, Win32Platform, WindowLayout,
};
use handmade::game_api::STICK_UNITS_PER_DEFLECTION;
use handmade::platform_input::{STICK_HALF, STICK_MAX, STICK_MIN};

const KEY_PRESSED: isize = 0;
const KEY_REPEATED: isize = 1 << 30;
const KEY_RELEASED: isize = (1 << 31) | (1 << 30);
const ALT_HELD: isize = 1 << 29;

fn pressed(count: u32) -> ButtonState {
    ButtonState { is_down: true, half_transition_count: count }
}

fn released(count: u32) -> ButtonState {
    ButtonState { is_down: false, half_transition_count: count }
}

#[test]
fn new_platform_is_empty() {
    let p = Win32Platform::new();
    assert!(!p.is_running);
    assert_eq!(p.perf_count_frequency, 0);
    assert_eq!(p.game_memory_block_total_size, 0);
    assert_eq!(p.offscreen_buffer.info, BitmapInfoHeader::default());
    assert!(p.offscreen_buffer.pixels.is_empty());
    assert!(p.exe_filename.iter().all(|u| *u == 0));
    assert_eq!(p.one_past_last_exe_file_name_slash, 0);
}

#[test]
fn keyboard_message_counts_changes_only() {
    let p = Win32Platform::new();
    let mut b = ButtonState::default();
    p.process_keyboard_message(&mut b, true);
    assert_eq!(b, pressed(1));
    p.process_keyboard_message(&mut b, true);
    assert_eq!(b, pressed(1));
    p.process_keyboard_message(&mut b, false);
    assert_eq!(b, released(2));
}

#[test]
fn stick_dead_zone() {
    let p = Win32Platform::new();
    let dz = XINPUT_GAMEPAD_LEFT_THUMB_DEADZONE;
    assert_eq!(p.normalize_xinput_stick_value(0, dz), 0);
    assert_eq!(p.normalize_xinput_stick_value(7849, dz), 0);
    assert_eq!(p.normalize_xinput_stick_value(-7849, dz), 0);
    assert_eq!(p.normalize_xinput_stick_value(7850, dz), 7850 * 32768);
    assert_eq!(p.normalize_xinput_stick_value(-7850, dz), -7850 * 32767);
    assert_eq!(p.normalize_xinput_stick_value(i16::MIN, dz), STICK_MIN);
    assert_eq!(p.normalize_xinput_stick_value(i16::MAX, dz), STICK_MAX);
    // A dead zone above i16::MAX wraps to a negative bound, as the cast does:
    // small positive readings then fall in the first branch.
    assert_eq!(p.normalize_xinput_stick_value(0, 65535), 0);
    assert_eq!(p.normalize_xinput_stick_value(-5, 65535), -5 * 32767);
    assert_eq!(p.normalize_xinput_stick_value(5, 65535), 5 * 32768);
    assert_eq!(p.normalize_xinput_stick_value(50, 65436), 50 * 32767);
    assert_eq!(p.normalize_xinput_stick_value(100, 65436), 100 * 32768);
}

#[test]
fn digital_button_compares_with_previous_frame() {
    let p = Win32Platform::new();
    let mut old = pressed(3);
    let mut new = ButtonState::default();
    p.process_xinput_digital_button(0b1010, &mut old, &mut new, 0b0010);
    assert_eq!(new, pressed(0));
    p.process_xinput_digital_button(0b1000, &mut old, &mut new, 0b0010);
    assert_eq!(new, released(1));
    // Every bit of a multi-bit mask must be set.
    p.process_xinput_digital_button(0b0010, &mut old, &mut new, 0b0011);
    assert_eq!(new, released(1));
    assert_eq!(old, pressed(3));
}

#[test]
fn key_press_and_release_drive_the_keyboard_controller() {
    let mut p = Win32Platform::new();
    p.is_running = true;
    let mut kb = ControllerInput::default();
    assert_eq!(p.handle_key_message(VK_W as usize, KEY_PRESSED, &mut kb), KeyMessageEffect::Nothing);
    assert_eq!(kb.buttons[ControllerButton::Up.index()], pressed(1));
    // An auto-repeat changes nothing.
    assert_eq!(p.handle_key_message(VK_W as usize, KEY_REPEATED, &mut kb), KeyMessageEffect::Nothing);
    assert_eq!(kb.buttons[ControllerButton::Up.index()], pressed(1));
    p.handle_key_message(VK_W as usize, KEY_RELEASED, &mut kb);
    assert_eq!(kb.buttons[ControllerButton::Up.index()], released(2));
    p.handle_key_message(VK_A as usize, KEY_PRESSED, &mut kb);
    p.handle_key_message(VK_SPACE as usize, KEY_PRESSED, &mut kb);
    assert_eq!(kb.buttons[ControllerButton::Left.index()], pressed(1));
    assert_eq!(kb.buttons[ControllerButton::Start.index()], pressed(1));
    assert!(p.is_running);
}

#[test]
fn every_mapped_key_reaches_its_button() {
    let keys: [(u16, ControllerButton); 10] = [
        (87, ControllerButton::Up),
        (83, ControllerButton::Down),
        (65, ControllerButton::Left),
        (68, ControllerButton::Right),
        (40, ControllerButton::South),
        (38, ControllerButton::North),
        (37, ControllerButton::West),
        (39, ControllerButton::East),
        (16, ControllerButton::RightShoulder),
        (32, ControllerButton::Start),
    ];
    for (vk, button) in keys {
        let mut p = Win32Platform::new();
        let mut kb = ControllerInput::default();
        p.handle_key_message(vk as usize, KEY_PRESSED, &mut kb);
        for i in 0..11 {
            assert_eq!(kb.buttons[i].is_down, i == button.index());
        }
    }
}

#[test]
fn unmapped_keys_change_nothing() {
    let mut p = Win32Platform::new();
    p.is_running = true;
    let mut kb = ControllerInput::default();
    assert_eq!(p.handle_key_message(VK_RETURN as usize, KEY_PRESSED, &mut kb), KeyMessageEffect::Nothing);
    assert_eq!(p.handle_key_message(VK_F4 as usize, KEY_PRESSED, &mut kb), KeyMessageEffect::Nothing);
    assert_eq!(kb, ControllerInput::default());
    assert!(p.is_running);
}

#[test]
fn alt_f4_stops_the_platform() {
    let mut p = Win32Platform::new();
    p.is_running = true;
    let mut kb = ControllerInput::default();
    p.handle_key_message(VK_F4 as usize, KEY_RELEASED | ALT_HELD, &mut kb);
    assert!(p.is_running);
    p.handle_key_message(VK_F4 as usize, KEY_PRESSED | ALT_HELD, &mut kb);
    assert!(!p.is_running);
}

#[test]
fn f11_press_toggles_fullscreen() {
    let mut p = Win32Platform::new();
    let mut kb = ControllerInput::default();
    assert_eq!(p.handle_key_message(VK_F11 as usize, KEY_PRESSED, &mut kb), KeyMessageEffect::ToggleFullscreen);
    assert_eq!(p.handle_key_message(VK_F11 as usize, KEY_RELEASED, &mut kb), KeyMessageEffect::Nothing);
}

#[test]
fn key_code_is_the_low_16_bits_of_wparam() {
    let mut p = Win32Platform::new();
    let mut kb = ControllerInput::default();
    p.handle_key_message(0x1_0000 + VK_W as usize, KEY_PRESSED, &mut kb);
    assert!(kb.buttons[ControllerButton::Up.index()].is_down);
}

#[test]
fn pending_messages() {
    let mut p = Win32Platform::new();
    p.is_running = true;
    let mut kb = ControllerInput::default();
    assert_eq!(p.process_pending_message(WM_PAINT, 0, 0, &mut kb), MessageOutcome::Dispatch);
    assert!(p.is_running);
    assert_eq!(p.process_pending_message(WM_KEYDOWN, VK_W as usize, KEY_PRESSED, &mut kb), MessageOutcome::Handled);
    assert!(kb.buttons[0].is_down);
    assert_eq!(p.process_pending_message(WM_KEYUP, VK_W as usize, KEY_RELEASED, &mut kb), MessageOutcome::Handled);
    assert_eq!(kb.buttons[0], released(2));
    assert_eq!(p.process_pending_message(WM_KEYDOWN, VK_F11 as usize, KEY_PRESSED, &mut kb), MessageOutcome::ToggleFullscreen);
    assert!(p.is_running);
    assert_eq!(p.process_pending_message(WM_QUIT, 0, 0, &mut kb), MessageOutcome::Handled);
    assert!(!p.is_running);
}

#[test]
fn window_procedure_actions() {
    let mut p = Win32Platform::new();
    p.is_running = true;
    assert_eq!(p.window_message_action(WM_SIZE), CallbackAction::Nothing);
    assert_eq!(p.window_message_action(WM_PAINT), CallbackAction::Paint);
    assert_eq!(p.window_message_action(WM_SETCURSOR), CallbackAction::DefaultProcedure);
    assert_eq!(p.window_message_action(0x0200), CallbackAction::DefaultProcedure);
    assert!(p.is_running);
    assert_eq!(p.window_message_action(WM_CLOSE), CallbackAction::Nothing);
    assert!(!p.is_running);
}

#[test]
fn keyboard_frame_keeps_held_keys_without_transitions() {
    let p = Win32Platform::new();
    let mut old_input = Input::default();
    old_input.controllers[0].buttons[2] = pressed(5);
    old_input.controllers[0].buttons[4] = released(3);
    let mut new_input = Input::default();
    new_input.executable_reloaded = true;
    new_input.controllers[0].is_analog = true;
    new_input.controllers[0].left_stick_x = 100;
    new_input.controllers[1].is_connected = true;
    new_input.mouse_x = 7;
    p.begin_keyboard_frame(&old_input, &mut new_input);
    assert!(!new_input.executable_reloaded);
    let kb = new_input.controllers[0];
    assert!(kb.is_connected);
    assert!(!kb.is_analog);
    assert_eq!(kb.left_stick_x, 0);
    for i in 0..11 {
        let expected = if i == 2 { pressed(0) } else { released(0) };
        assert_eq!(kb.buttons[i], expected);
    }
    assert!(new_input.controllers[1].is_connected);
    assert_eq!(new_input.mouse_x, 7);
}

#[test]
fn mouse_input_reads_the_high_bit_of_key_states() {
    let p = Win32Platform::new();
    let mut input = Input::default();
    input.mouse_wheel = 3;
    p.process_mouse_input(&mut input, 10, -4, i16::MIN, 1, -1);
    assert_eq!((input.mouse_x, input.mouse_y, input.mouse_wheel), (10, -4, 0));
    assert_eq!(input.mouse_buttons[0], pressed(1));
    assert_eq!(input.mouse_buttons[1], released(0));
    assert_eq!(input.mouse_buttons[2], pressed(1));
    p.process_mouse_input(&mut input, 10, -4, 0, 0, -32767);
    assert_eq!(input.mouse_buttons[0], released(2));
    assert_eq!(input.mouse_buttons[2], pressed(1));
}

#[test]
fn controller_slots() {
    assert_eq!(Win32Platform::max_controller_count(5), 5);
    assert_eq!(Win32Platform::max_controller_count(3), 3);
    assert_eq!(Win32Platform::max_controller_count(9), 5);
}

#[test]
fn game_memory_plan() {
    let mut p = Win32Platform::new();
    let m = p.plan_game_memory();
    assert_eq!(m.permanent_storage_size, 256 * 1024 * 1024);
    assert_eq!(m.transient_storage_size, 1024 * 1024 * 1024);
    assert_eq!(m.permanent_storage, 0);
    assert_eq!(m.transient_storage, 0);
    assert_eq!(p.game_memory_block_total_size, 1_342_177_280);
}

fn name_buffer(name: &str) -> [u16; 260] {
    let mut buffer = [0u16; 260];
    for (i, u) in name.encode_utf16().enumerate() {
        buffer[i] = u;
    }
    buffer
}

#[test]
fn exe_directory_ends_after_last_backslash() {
    let mut p = Win32Platform::new();
    p.set_exe_filename(name_buffer("C:\\games\\handmade\\platform_layer.exe"));
    assert_eq!(p.one_past_last_exe_file_name_slash, 18);
    assert_eq!(p.exe_filename[17], '\\' as u16);
    p.set_exe_filename(name_buffer("platform_layer.exe"));
    assert_eq!(p.one_past_last_exe_file_name_slash, 0);
    let mut full = [b'a' as u16; 260];
    full[MAX_PATH - 1] = '\\' as u16;
    p.set_exe_filename(full);
    assert_eq!(p.one_past_last_exe_file_name_slash, MAX_PATH);
}

#[test]
fn dll_path_is_next_to_the_executable() {
    let mut p = Win32Platform::new();
    p.set_exe_filename(name_buffer("C:\\games\\platform_layer.exe"));
    let path = p.build_cpath_from_exe_dir_utf16("game.dll");
    let expected: Vec<u16> = "C:\\games\\game.dll\0".encode_utf16().collect();
    assert_eq!(path, expected);
}

#[test]
fn dll_path_encodes_utf16_surrogates() {
    let p = Win32Platform::new();
    let path = p.build_cpath_from_exe_dir_utf16("\u{1F600}é");
    assert_eq!(path, vec![0xD83D, 0xDE00, 0x00E9, 0]);
}

#[test]
fn resize_dib_section_allocates_black_pixels() {
    let mut p = Win32Platform::new();
    p.offscreen_buffer.pitch = 7;
    p.resize_dib_section(4, 3);
    let b = &p.offscreen_buffer;
    assert_eq!((b.width, b.height, b.pitch), (4, 3, 7));
    assert_eq!(b.pixels, vec![0u32; 12]);
    assert_eq!(b.info.size, 40);
    assert_eq!((b.info.width, b.info.height), (4, 3));
    assert_eq!((b.info.planes, b.info.bit_count, b.info.compression), (1, 32, 0));
    p.offscreen_buffer.pixels[0] = 0xffffff;
    p.resize_dib_section(2, 1);
    assert_eq!(p.offscreen_buffer.pixels, vec![0u32; 2]);
    let g = p.game_buffer();
    assert_eq!((g.width, g.height, g.pitch), (2, 1, 7));
}

#[test]
fn window_dimension_of_client_rect() {
    let p = Win32Platform::new();
    assert_eq!(p.get_window_dimension(Rect { left: 0, top: 0, right: 960, bottom: 540 }), (960, 540));
    assert_eq!(p.get_window_dimension(Rect { left: 10, top: 20, right: 5, bottom: 20 }), (u32::MAX - 4, 0));
}

#[test]
fn large_window_stretches_the_bitmap() {
    let mut p = Win32Platform::new();
    p.resize_dib_section(100, 50);
    let commands = p.display_buffer_in_window(200, 100);
    assert_eq!(
        commands,
        vec![BlitCommand::StretchPixels {
            dest_x: 0,
            dest_y: 0,
            dest_width: 200,
            dest_height: 100,
            src_x: 0,
            src_y: 0,
            src_width: 100,
            src_height: 50,
        }]
    );
}

#[test]
fn small_window_shows_the_bitmap_unscaled() {
    let mut p = Win32Platform::new();
    p.resize_dib_section(100, 50);
    let commands = p.display_buffer_in_window(199, 100);
    assert_eq!(
        commands,
        vec![
            BlitCommand::Blackness { x: 0, y: 0, width: 199, height: 0 },
            BlitCommand::Blackness { x: 0, y: 50, width: 199, height: 0 },
            BlitCommand::Blackness { x: 0, y: 0, width: 0, height: 100 },
            BlitCommand::Blackness { x: 100, y: 0, width: 199, height: 100 },
            BlitCommand::StretchPixels {
                dest_x: 0,
                dest_y: 0,
                dest_width: 100,
                dest_height: 50,
                src_x: 0,
                src_y: 0,
                src_width: 100,
                src_height: 50,
            },
        ]
    );
}

#[test]
fn fullscreen_toggle() {
    let decorated = (WS_OVERLAPPEDWINDOW | 0x1000_0000) as isize;
    assert_eq!(Win32Platform::toggle_fullscreen_step(decorated), FullscreenStep::Enter);
    let bare = 0x1000_0000isize;
    assert_eq!(
        Win32Platform::toggle_fullscreen_step(bare),
        FullscreenStep::Leave { style: decorated }
    );
    let monitor = Rect { left: -1920, top: 0, right: 0, bottom: 1080 };
    assert_eq!(
        Win32Platform::fullscreen_layout(decorated, true, true, monitor),
        Some(WindowLayout { style: bare, x: -1920, y: 0, width: 1920, height: 1080 })
    );
    assert_eq!(Win32Platform::fullscreen_layout(decorated, false, true, monitor), None);
    assert_eq!(Win32Platform::fullscreen_layout(decorated, true, false, monitor), None);
}

#[test]
fn unreadable_gamepad_is_disconnected() {
    let p = Win32Platform::new();
    let mut old = ControllerInput::default();
    let mut new = ControllerInput::default();
    new.is_connected = true;
    new.left_stick_x = 99;
    p.process_controller_state(&mut old, &mut new, None);
    assert!(!new.is_connected);
    assert_eq!(new.left_stick_x, 99);
}

#[test]
fn gamepad_sticks_and_buttons() {
    let p = Win32Platform::new();
    let mut old = ControllerInput::default();
    old.buttons[ControllerButton::South.index()] = pressed(1);
    let mut new = ControllerInput::default();
    let pad = GamepadState {
        buttons: XINPUT_GAMEPAD_A | XINPUT_GAMEPAD_X,
        thumb_lx: 20000,
        thumb_ly: 100,
        thumb_rx: -8690,
        thumb_ry: 8689,
    };
    assert_eq!(XINPUT_GAMEPAD_RIGHT_THUMB_DEADZONE, 8689);
    p.process_controller_state(&mut old, &mut new, Some(pad));
    assert!(new.is_connected);
    assert!(new.is_analog);
    assert_eq!(new.left_stick_x, 20000 * 32768);
    assert_eq!(new.left_stick_y, 0);
    assert_eq!(new.right_stick_x, -8690 * 32767);
    assert_eq!(new.right_stick_y, 0);
    assert_eq!(new.buttons[ControllerButton::South.index()], pressed(0));
    assert_eq!(new.buttons[ControllerButton::East.index()], pressed(1));
    // A stick past half way does not hold a direction button: the d-pad decides.
    assert_eq!(new.buttons[ControllerButton::Right.index()], released(0));
    assert_eq!(old.buttons[ControllerButton::South.index()], pressed(1));
}

#[test]
fn gamepad_dpad_moves_the_left_stick_fully() {
    let p = Win32Platform::new();
    let mut old = ControllerInput::default();
    old.is_analog = true;
    old.buttons[ControllerButton::Up.index()] = pressed(0);
    let mut new = ControllerInput::default();
    let pad = GamepadState {
        buttons: XINPUT_GAMEPAD_DPAD_UP | XINPUT_GAMEPAD_DPAD_DOWN | XINPUT_GAMEPAD_DPAD_RIGHT,
        thumb_lx: -30000,
        thumb_ly: 0,
        thumb_rx: 0,
        thumb_ry: 0,
    };
    p.process_controller_state(&mut old, &mut new, Some(pad));
    assert!(!new.is_analog);
    assert_eq!(new.left_stick_x, STICK_MAX);
    assert_eq!(new.left_stick_y, STICK_MIN);
    assert_eq!(new.buttons[ControllerButton::Up.index()], pressed(0));
    assert_eq!(new.buttons[ControllerButton::Down.index()], pressed(1));
    assert_eq!(new.buttons[ControllerButton::Right.index()], pressed(1));
    assert_eq!(new.buttons[ControllerButton::Left.index()], released(0));
}

#[test]
fn gamepad_keeps_analog_flag_when_centred() {
    let p = Win32Platform::new();
    let mut old = ControllerInput::default();
    old.is_analog = true;
    let mut new = ControllerInput::default();
    let pad = GamepadState { buttons: 0, thumb_lx: 5, thumb_ly: -7000, thumb_rx: 0, thumb_ry: 0 };
    assert!(7000 <= XINPUT_GAMEPAD_LEFT_THUMB_DEADZONE);
    p.process_controller_state(&mut old, &mut new, Some(pad));
    assert!(new.is_analog);
    assert_eq!((new.left_stick_x, new.left_stick_y), (0, 0));
    old.is_analog = false;
    p.process_controller_state(&mut old, &mut new, Some(pad));
    assert!(!new.is_analog);
}

#[test]
fn stick_units_are_exact_positions() {
    let p = Win32Platform::new();
    let full = STICK_UNITS_PER_DEFLECTION as f64;
    for dead_zone in [
        XINPUT_GAMEPAD_LEFT_THUMB_DEADZONE,
        XINPUT_GAMEPAD_RIGHT_THUMB_DEADZONE,
        0,
        32767,
        32769,
        40000,
        65436,
        65535,
    ] {
        let dz = dead_zone as i16;
        for v in i16::MIN..=i16::MAX {
            // The position as the stick's reading is normalized in floating point.
            let expected: f32 = if v < -dz {
                v as f32 / 32768.0
            } else if v > dz {
                v as f32 / 32767.0
            } else {
                0.0
            };
            let units = p.normalize_xinput_stick_value(v, dead_zone);
            let exact = if v < -dz {
                v as f64 / 32768.0
            } else if v > dz {
                v as f64 / 32767.0
            } else {
                0.0
            };
            assert_eq!(units as f64 / full, exact);
            assert!((expected as f64 - exact).abs() < 1e-7);
            assert_eq!(expected < -0.5, units < -STICK_HALF);
            assert_eq!(expected > 0.5, units > STICK_HALF);
            assert_eq!(expected != 0.0, units != 0);
        }
    }
    assert_eq!(STICK_MAX as f64 / full, 1.0);
    assert_eq!(STICK_MIN as f64 / full, -1.0);
    assert_eq!(STICK_HALF as f64 / full, 0.5);
}

#[test]
fn press_and_release_within_a_frame() {
    let p = Win32Platform::new();
    let mut b = released(4);
    p.process_keyboard_message(&mut b, true);
    p.process_keyboard_message(&mut b, false);
    assert_eq!(b, released(6));
}

#[test]
fn fits_checks_guard_the_transition_counter() {
    let p = Win32Platform::new();
    let full = ButtonState { is_down: false, half_transition_count: u32::MAX };
    assert!(!p.button_event_fits(&full, true));
    assert!(p.button_event_fits(&full, false));
    let mut kb = ControllerInput::default();
    kb.buttons[ControllerButton::Up.index()] = full;
    assert!(!p.key_message_fits(VK_W as usize, KEY_PRESSED, &kb));
    assert!(p.key_message_fits(VK_W as usize, KEY_RELEASED, &kb));
    assert!(p.key_message_fits(VK_A as usize, KEY_PRESSED, &kb));
    assert!(p.key_message_fits(VK_F11 as usize, KEY_PRESSED, &kb));
}

#[test]
fn repeated_key_message_is_taken_at_a_full_counter() {
    let mut p = Win32Platform::new();
    p.is_running = true;
    let mut kb = ControllerInput::default();
    let held_full = ButtonState { is_down: true, half_transition_count: u32::MAX };
    kb.buttons[ControllerButton::Up.index()] = held_full;
    let auto_repeat: isize = 0x4000_0001;
    assert!(p.key_message_fits(VK_W as usize, auto_repeat, &kb));
    assert_eq!(p.handle_key_message(VK_W as usize, auto_repeat, &mut kb), KeyMessageEffect::Nothing);
    assert_eq!(kb.buttons[ControllerButton::Up.index()], held_full);
    assert_eq!(p.process_pending_message(WM_KEYDOWN, VK_W as usize, auto_repeat, &mut kb), MessageOutcome::Handled);
    assert_eq!(kb.buttons[ControllerButton::Up.index()], held_full);
    assert!(p.is_running);
    // A release does change the state, and would overflow the counter.
    assert!(!p.key_message_fits(VK_W as usize, KEY_RELEASED, &kb));
}

#[test]
fn fullscreen_round_trip_restores_the_style() {
    let style = (WS_OVERLAPPEDWINDOW | 0x1000_0000) as isize;
    assert_eq!(Win32Platform::toggle_fullscreen_step(style), FullscreenStep::Enter);
    let monitor = Rect { left: 0, top: 0, right: 800, bottom: 600 };
    let layout = Win32Platform::fullscreen_layout(style, true, true, monitor).unwrap();
    assert_eq!(Win32Platform::toggle_fullscreen_step(layout.style), FullscreenStep::Leave { style });
}

#[test]
fn only_quit_close_and_alt_f4_stop_the_platform() {
    let mut p = Win32Platform::new();
    p.is_running = true;
    let mut kb = ControllerInput::default();
    for message in [WM_PAINT, WM_SIZE, WM_SETCURSOR, WM_KEYUP] {
        p.process_pending_message(message, VK_F4 as usize, KEY_RELEASED | ALT_HELD, &mut kb);
        p.window_message_action(message);
    }
    p.process_pending_message(WM_KEYDOWN, VK_F4 as usize, KEY_PRESSED, &mut kb);
    assert!(p.is_running);
    p.process_pending_message(WM_KEYDOWN, VK_F4 as usize, KEY_PRESSED | ALT_HELD, &mut kb);
    assert!(!p.is_running);
    p.process_pending_message(WM_PAINT, 0, 0, &mut kb);
    assert!(!p.is_running);
}

#[test]
fn resized_bitmap_matches_its_header() {
    let mut p = Win32Platform::new();
    for (w, h) in [(0u32, 5u32), (3, 0), (17, 9), (960, 540)] {
        p.resize_dib_section(w, h);
        let b = &p.offscreen_buffer;
        assert_eq!(b.pixels.len(), (w * h) as usize);
        assert_eq!((b.info.width, b.info.height), (w as i32, h as i32));
    }
}
