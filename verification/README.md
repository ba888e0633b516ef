# handmade

A small game platform layer for Windows, in two parts.

`src/` is a Verus-verified library holding the platform's decisions:

- `game_api`: the records the platform hands the game (buttons, controllers,
  the frame's input, the bitmap's size, the game's memory).
- `units`: byte sizes (`kilobytes` .. `terabytes`).
- `win32`: the Windows API values the decisions depend on.
- `win32_platform`: the platform's state, window messages, the game memory plan.
- `platform_input`: key events, mouse buttons and gamepad readings as game input.
- `platform_display`: sizing the offscreen bitmap, showing it, fullscreen.
- `platform_paths`: the executable's directory and the game library's path.

`app/` is the Windows program around it: it makes every call into Windows
(through `windows-sys`), times the frames, converts stick readings to
floating-point positions, and loads the game's library.
