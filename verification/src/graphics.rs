//! The geometry of the display: how framebuffer cells become rectangles of
//! the host window.

use vstd::prelude::*;

verus! {

/// Width of the screen in cells.
pub const SCREEN_WIDTH: usize = 64;

/// Height of the screen in cells.
pub const SCREEN_HEIGHT: usize = 32;

/// Number of cells of the framebuffer.
pub const VIDEO_BUFFER_SIZE: usize = 2048;

/// Side of the square of host pixels that shows one cell.
pub const SCALE_FACTOR: u32 = 10;

/// One filled rectangle of the host window, lit or unlit.
#[derive(Clone, Copy, Debug, PartialEq, Eq, Structural)]
pub struct ScreenRect {
    pub x: i32,
    pub y: i32,
    pub width: u32,
    pub height: u32,
    pub lit: bool,
}

/// The rectangle that shows framebuffer cell number `cell` holding `value`:
/// a square of [`SCALE_FACTOR`] host pixels at the cell's column and row,
/// lit exactly if the cell holds the all-ones value.
pub open spec fn cell_rect(cell: int, value: u32) -> ScreenRect {
    ScreenRect {
        x: ((cell % 64) * 10) as i32,
        y: ((cell / 64) * 10) as i32,
        width: 10,
        height: 10,
        lit: value == 0xFFFF_FFFFu32,
    }
}

/// Width and height of the host window in host pixels.
pub fn window_size() -> (size: (u32, u32))
    ensures
        size == (640u32, 320u32),
{
    (SCREEN_WIDTH as u32 * SCALE_FACTOR, SCREEN_HEIGHT as u32 * SCALE_FACTOR)
}

/// Turns a frame into the rectangles to fill, one per cell, row by row from
/// the top left.
pub fn update_screen(video_buffer: &[u32; 2048]) -> (rects: Vec<ScreenRect>)
    ensures
        rects@.len() == 2048,
        forall|cell: int| 0 <= cell < 2048 ==> rects@[cell] == cell_rect(cell, video_buffer@[cell]),
{
    let mut rects: Vec<ScreenRect> = Vec::with_capacity(VIDEO_BUFFER_SIZE);
    let mut y: usize = 0;
    while y < SCREEN_HEIGHT
        invariant
            y <= 32,
            rects@.len() == y * 64,
            forall|cell: int|
                0 <= cell < y * 64 ==> rects@[cell] == cell_rect(cell, video_buffer@[cell]),
        decreases 32 - y,
    {
        let mut x: usize = 0;
        while x < SCREEN_WIDTH
            invariant
                y < 32,
                x <= 64,
                rects@.len() == y * 64 + x,
                forall|cell: int|
                    0 <= cell < y * 64 + x ==> rects@[cell] == cell_rect(
                        cell,
                        video_buffer@[cell],
                    ),
            decreases 64 - x,
        {
            let pixel: u32 = video_buffer[y * SCREEN_WIDTH + x];
            let left: u32 = (x as u32) * SCALE_FACTOR;
            let top: u32 = (y as u32) * SCALE_FACTOR;
            rects.push(
                ScreenRect {
                    x: left as i32,
                    y: top as i32,
                    width: SCALE_FACTOR,
                    height: SCALE_FACTOR,
                    lit: pixel == 0xFFFF_FFFF,
                },
            );
            x += 1;
        }
        y += 1;
    }
    rects
}

} // verus!
