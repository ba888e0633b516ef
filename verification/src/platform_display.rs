//! How the offscreen bitmap is sized and shown in the window, and how the
//! window enters and leaves fullscreen.
use vstd::prelude::*;
use crate::game_api::OffscreenBuffer;
use crate::win32::{BITMAPINFOHEADER_SIZE, BI_RGB, WS_OVERLAPPEDWINDOW};
use crate::win32_platform::{
    BitmapInfoHeader, BlitCommand, FullscreenStep, Rect, Win32Platform, WindowLayout,
};

verus! {

/// The drawing calls that show a `buffer_width` x `buffer_height` bitmap in a
/// `window_width` x `window_height` window: stretched over the whole window
/// when the window is at least twice as large both ways, otherwise at its own
/// size in the top left corner, after blackening the rest.
pub open spec fn display_commands(
    buffer_width: u32,
    buffer_height: u32,
    window_width: u32,
    window_height: u32,
) -> Seq<BlitCommand> {
    let bw = buffer_width as i32;
    let bh = buffer_height as i32;
    let ww = window_width as i32;
    let wh = window_height as i32;
    if window_width >= buffer_width * 2 && window_height >= buffer_height * 2 {
        seq![
            BlitCommand::StretchPixels {
                dest_x: 0,
                dest_y: 0,
                dest_width: ww,
                dest_height: wh,
                src_x: 0,
                src_y: 0,
                src_width: bw,
                src_height: bh,
            },
        ]
    } else {
        seq![
            BlitCommand::Blackness { x: 0, y: 0, width: ww, height: 0 },
            BlitCommand::Blackness { x: 0, y: bh, width: ww, height: 0 },
            BlitCommand::Blackness { x: 0, y: 0, width: 0, height: wh },
            BlitCommand::Blackness { x: bw, y: 0, width: ww, height: wh },
            BlitCommand::StretchPixels {
                dest_x: 0,
                dest_y: 0,
                dest_width: bw,
                dest_height: bh,
                src_x: 0,
                src_y: 0,
                src_width: bw,
                src_height: bh,
            },
        ]
    }
}

/// The window decoration bits of a window style.
pub open spec fn overlapped_bits() -> isize {
    WS_OVERLAPPEDWINDOW as isize
}

/// The first step of toggling fullscreen for a window of style `style`: a
/// window with any decoration bit enters fullscreen, any other leaves it with
/// all decoration bits set.
pub open spec fn fullscreen_step(style: isize) -> FullscreenStep {
    if style & overlapped_bits() != 0 {
        FullscreenStep::Enter
    } else {
        FullscreenStep::Leave { style: style | overlapped_bits() }
    }
}

/// The style of a window in fullscreen: its style without decoration.
pub open spec fn fullscreen_style(style: isize) -> isize {
    style & !overlapped_bits()
}

/// Toggling fullscreen twice restores a fully decorated window's style: the
/// first toggle enters fullscreen with the decoration removed, and the second,
/// on that style, leaves fullscreen with the original style.
pub proof fn lemma_fullscreen_round_trip(style: isize)
    requires
        style & overlapped_bits() == overlapped_bits(),
    ensures
        fullscreen_step(style) == FullscreenStep::Enter,
        fullscreen_step(fullscreen_style(style)) == (FullscreenStep::Leave { style }),
{
    assert(style & 13565952isize == 13565952isize ==> (style & !13565952isize) & 13565952isize
        == 0isize && (style & !13565952isize) | 13565952isize == style) by (bit_vector);
    assert(overlapped_bits() == 13565952isize);
}

/// Showing the bitmap: when the window is at least twice the bitmap's size in
/// both directions, the only drawing call copies the whole bitmap onto the
/// whole window. Otherwise the last call copies the whole bitmap unscaled to
/// the window's top left corner, after four black fills: an empty strip along
/// the top, one at the bitmap's bottom edge, an empty one along the left, and
/// one from the bitmap's right edge over the window's size.
pub proof fn lemma_display_fills_window(
    buffer_width: u32,
    buffer_height: u32,
    window_width: u32,
    window_height: u32,
)
    ensures
        ({
            let commands = display_commands(
                buffer_width,
                buffer_height,
                window_width,
                window_height,
            );
            let whole_bitmap = |c: BlitCommand|
                c matches BlitCommand::StretchPixels { src_x, src_y, src_width, src_height, .. }
                    && src_x == 0 && src_y == 0 && src_width == buffer_width as i32 && src_height
                    == buffer_height as i32;
            if window_width >= 2 * buffer_width && window_height >= 2 * buffer_height {
                &&& commands.len() == 1
                &&& whole_bitmap(commands[0])
                &&& commands[0] matches BlitCommand::StretchPixels {
                    dest_x,
                    dest_y,
                    dest_width,
                    dest_height,
                    ..
                } && dest_x == 0 && dest_y == 0 && dest_width == window_width as i32
                    && dest_height == window_height as i32
            } else {
                &&& commands.len() == 5
                &&& commands[0] == (BlitCommand::Blackness {
                    x: 0,
                    y: 0,
                    width: window_width as i32,
                    height: 0,
                })
                &&& commands[1] == (BlitCommand::Blackness {
                    x: 0,
                    y: buffer_height as i32,
                    width: window_width as i32,
                    height: 0,
                })
                &&& commands[2] == (BlitCommand::Blackness {
                    x: 0,
                    y: 0,
                    width: 0,
                    height: window_height as i32,
                })
                &&& commands[3] == (BlitCommand::Blackness {
                    x: buffer_width as i32,
                    y: 0,
                    width: window_width as i32,
                    height: window_height as i32,
                })
                &&& whole_bitmap(commands[4])
                &&& commands[4] matches BlitCommand::StretchPixels {
                    dest_x,
                    dest_y,
                    dest_width,
                    dest_height,
                    ..
                } && dest_x == 0 && dest_y == 0 && dest_width == buffer_width as i32
                    && dest_height == buffer_height as i32
            }
        }),
{
}

/// A window in fullscreen has no decoration bit (`0xCF0000`) and keeps all its
/// other style bits; toggling enters fullscreen exactly when the style has a
/// decoration bit, and otherwise leaves it with every decoration bit set.
pub proof fn lemma_fullscreen_style_bits(style: isize)
    ensures
        fullscreen_style(style) & 0xCF0000isize == 0,
        fullscreen_style(style) | (style & 0xCF0000isize) == style,
        fullscreen_step(style) == (if style & 0xCF0000isize != 0 {
            FullscreenStep::Enter
        } else {
            FullscreenStep::Leave { style: style | 0xCF0000isize }
        }),
{
    assert((style & !0xCF0000isize) & 0xCF0000isize == 0) by (bit_vector);
    assert((style & !0xCF0000isize) | (style & 0xCF0000isize) == style) by (bit_vector);
    assert(overlapped_bits() == 0xCF0000isize);
}

impl Win32Platform {
    /// Gives the bitmap a new size: a 32-bit, uncompressed, single-plane,
    /// bottom-up header of that size, and that many black pixels. The pitch
    /// is left as it was.
    pub fn resize_dib_section(&mut self, width: u32, height: u32)
        requires
            width * height <= u32::MAX,
        ensures
            final(self).offscreen_buffer.width == width,
            final(self).offscreen_buffer.height == height,
            final(self).offscreen_buffer.pitch == old(self).offscreen_buffer.pitch,
            final(self).offscreen_buffer.info == (BitmapInfoHeader {
                size: BITMAPINFOHEADER_SIZE,
                width: width as i32,
                height: height as i32,
                planes: 1,
                bit_count: 32,
                compression: BI_RGB,
                ..old(self).offscreen_buffer.info
            }),
            final(self).offscreen_buffer.pixels@ == Seq::new((width * height) as nat, |i: int| 0u32),
            final(self).perf_count_frequency == old(self).perf_count_frequency,
            final(self).game_memory_block_total_size == old(self).game_memory_block_total_size,
            final(self).is_running == old(self).is_running,
            final(self).exe_filename == old(self).exe_filename,
            final(self).one_past_last_exe_file_name_slash
                == old(self).one_past_last_exe_file_name_slash,
            final(self).offscreen_buffer.wf(),
            old(self).wf() ==> final(self).wf(),
    {
        let buffer = &mut self.offscreen_buffer;
        buffer.width = width;
        buffer.height = height;

        buffer.info.size = BITMAPINFOHEADER_SIZE;
        buffer.info.width = #[verifier::truncate] (buffer.width as i32);
        buffer.info.height = #[verifier::truncate] (buffer.height as i32);
        buffer.info.planes = 1;
        buffer.info.bit_count = 32;
        buffer.info.compression = BI_RGB;

        let pixel_count: usize = (buffer.width * buffer.height) as usize;
        buffer.pixels.clear();
        let mut i: usize = 0;
        while i < pixel_count
            invariant
                i <= pixel_count,
                pixel_count == width * height,
                buffer.width == width,
                buffer.height == height,
                buffer.pitch == old(self).offscreen_buffer.pitch,
                buffer.info == (BitmapInfoHeader {
                    size: BITMAPINFOHEADER_SIZE,
                    width: width as i32,
                    height: height as i32,
                    planes: 1,
                    bit_count: 32,
                    compression: BI_RGB,
                    ..old(self).offscreen_buffer.info
                }),
                buffer.pixels@ == Seq::new(i as nat, |k: int| 0u32),
            decreases pixel_count - i,
        {
            buffer.pixels.push(0);
            i = i + 1;
            proof {
                assert(buffer.pixels@ =~= Seq::new(i as nat, |k: int| 0u32));
            }
        }
    }

    /// The width and height of a window's client rectangle.
    pub fn get_window_dimension(&self, client_rect: Rect) -> (dimension: (u32, u32))
        requires
            i32::MIN <= client_rect.right - client_rect.left <= i32::MAX,
            i32::MIN <= client_rect.bottom - client_rect.top <= i32::MAX,
        ensures
            dimension == ((client_rect.right - client_rect.left) as u32, (client_rect.bottom
                - client_rect.top) as u32),
    {
        let width: u32 = #[verifier::truncate] ((client_rect.right - client_rect.left) as u32);
        let height: u32 = #[verifier::truncate] ((client_rect.bottom - client_rect.top) as u32);
        (width, height)
    }

    /// The bitmap as the game sees it: its size and pitch.
    pub fn game_buffer(&self) -> (buffer: OffscreenBuffer)
        ensures
            buffer == (OffscreenBuffer {
                width: self.offscreen_buffer.width,
                height: self.offscreen_buffer.height,
                pitch: self.offscreen_buffer.pitch,
            }),
    {
        OffscreenBuffer {
            width: self.offscreen_buffer.width,
            height: self.offscreen_buffer.height,
            pitch: self.offscreen_buffer.pitch,
        }
    }

    /// The drawing calls that show the bitmap in a window of the given size
    /// (see `display_commands`).
    pub fn display_buffer_in_window(&self, window_width: u32, window_height: u32) -> (commands:
        Vec<BlitCommand>)
        requires
            self.offscreen_buffer.width * 2 <= u32::MAX,
            window_width >= self.offscreen_buffer.width * 2 ==> self.offscreen_buffer.height * 2
                <= u32::MAX,
        ensures
            commands@ == display_commands(
                self.offscreen_buffer.width,
                self.offscreen_buffer.height,
                window_width,
                window_height,
            ),
    {
        let buffer = &self.offscreen_buffer;
        let bw: i32 = #[verifier::truncate] (buffer.width as i32);
        let bh: i32 = #[verifier::truncate] (buffer.height as i32);
        let ww: i32 = #[verifier::truncate] (window_width as i32);
        let wh: i32 = #[verifier::truncate] (window_height as i32);
        let mut commands: Vec<BlitCommand> = Vec::new();
        if window_width >= buffer.width * 2 && window_height >= buffer.height * 2 {
            commands.push(
                BlitCommand::StretchPixels {
                    dest_x: 0,
                    dest_y: 0,
                    dest_width: ww,
                    dest_height: wh,
                    src_x: 0,
                    src_y: 0,
                    src_width: bw,
                    src_height: bh,
                },
            );
        } else {
            let offset_x: i32 = 0;
            let offset_y: i32 = 0;
            commands.push(BlitCommand::Blackness { x: 0, y: 0, width: ww, height: offset_y });
            commands.push(
                BlitCommand::Blackness { x: 0, y: offset_y + bh, width: ww, height: offset_y },
            );
            commands.push(BlitCommand::Blackness { x: 0, y: 0, width: offset_x, height: wh });
            commands.push(BlitCommand::Blackness { x: offset_x + bw, y: 0, width: ww, height: wh });
            commands.push(
                BlitCommand::StretchPixels {
                    dest_x: offset_x,
                    dest_y: offset_y,
                    dest_width: bw,
                    dest_height: bh,
                    src_x: 0,
                    src_y: 0,
                    src_width: bw,
                    src_height: bh,
                },
            );
        }
        proof {
            assert(commands@ =~= display_commands(
                self.offscreen_buffer.width,
                self.offscreen_buffer.height,
                window_width,
                window_height,
            ));
        }
        commands
    }

    /// The first step of toggling fullscreen for a window of style `style`:
    /// a decorated window enters fullscreen, any other leaves it with its
    /// decoration restored.
    pub fn toggle_fullscreen_step(style: isize) -> (step: FullscreenStep)
        ensures
            step == fullscreen_step(style),
    {
        let overlapped: isize = WS_OVERLAPPEDWINDOW as isize;
        if (style & overlapped) != 0 {
            FullscreenStep::Enter
        } else {
            FullscreenStep::Leave { style: style | overlapped }
        }
    }

    /// The layout of a window entering fullscreen: without decoration, over
    /// the whole `monitor` rectangle, provided both the window's placement
    /// was saved and the monitor's rectangle was found; otherwise the window
    /// stays as it is.
    pub fn fullscreen_layout(
        style: isize,
        placement_saved: bool,
        monitor_found: bool,
        monitor: Rect,
    ) -> (layout: Option<WindowLayout>)
        requires
            placement_saved && monitor_found ==> {
                &&& i32::MIN <= monitor.right - monitor.left <= i32::MAX
                &&& i32::MIN <= monitor.bottom - monitor.top <= i32::MAX
            },
        ensures
            layout == (if placement_saved && monitor_found {
                Some(
                    WindowLayout {
                        style: fullscreen_style(style),
                        x: monitor.left,
                        y: monitor.top,
                        width: (monitor.right - monitor.left) as i32,
                        height: (monitor.bottom - monitor.top) as i32,
                    },
                )
            } else {
                None
            }),
    {
        if placement_saved && monitor_found {
            let overlapped: isize = WS_OVERLAPPEDWINDOW as isize;
            Some(
                WindowLayout {
                    style: style & !overlapped,
                    x: monitor.left,
                    y: monitor.top,
                    width: monitor.right - monitor.left,
                    height: monitor.bottom - monitor.top,
                },
            )
        } else {
            None
        }
    }
}

} // verus!
