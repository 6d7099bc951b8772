use vstd::prelude::*;
use vstd::string::*;
use crate::ast::{exprs_view, Expr};
use crate::interpreter::{value_text, Interpreter};
use crate::libs::nerd::number_value;
use crate::libs::skui::utils::hex_to_rgba;
use crate::libs::skui::{load_skui_state, store_skui_state, SkuiApp, SkuiState};
use crate::libs::NativeFunction;
use crate::machine::Request;

verus! {

/// `createWindow(width, height, title)`: refuses a width or a height that
/// is not a positive 32-bit number, records the window, and asks the host
/// to open it.
pub fn create_window_builtin(itp: &mut Interpreter, values: &Vec<Expr>)
    requires
        values.len() == 3,
    ensures
        final(itp)@ == old(itp)@.native(NativeFunction::CreateWindow, exprs_view(values@)),
{
    let width = number_value(&values[0]);
    let height = number_value(&values[1]);
    if width <= 0 || height <= 0 || width > u32::MAX as i64 || height > u32::MAX as i64 {
        itp.general(String::from_str("Window dimensions must be greater than zero."));
        return ;
    }
    match load_skui_state(itp) {
        None => itp.general(String::from_str("Invalid state")),
        Some(state) => {
            let app = SkuiApp { width: width as u32, height: height as u32 };
            store_skui_state(itp, SkuiState { app: Some(app), clock: state.clock });
            itp.ask(
                Request::CreateWindow {
                    width: width as u32,
                    height: height as u32,
                    title: value_text(&values[2]),
                },
            );
        },
    }
}

/// `pumpEvents()`: gives `true` while there is no window, and asks the host
/// to handle the window's events otherwise.
pub fn pump_events_builtin(itp: &mut Interpreter, values: &Vec<Expr>)
    ensures
        final(itp)@ == old(itp)@.native(NativeFunction::PumpEvents, exprs_view(values@)),
{
    match load_skui_state(itp) {
        None => itp.general(String::from_str("Invalid state")),
        Some(state) => {
            if state.app.is_some() {
                itp.ask(Request::PumpEvents);
            } else {
                itp.give(Expr::Boolean(true));
            }
        },
    }
}

/// `goonScreen(colour)`: reads the colour, gives `false` while there is no
/// window, and asks the host to fill the window otherwise.
pub fn fill_screen_builtin(itp: &mut Interpreter, values: &Vec<Expr>)
    requires
        values.len() == 1,
    ensures
        final(itp)@ == old(itp)@.native(NativeFunction::GoonScreen, exprs_view(values@)),
{
    let line = itp.line;
    let text = value_text(&values[0]);
    match load_skui_state(itp) {
        None => itp.general(String::from_str("Invalid state")),
        Some(state) => match hex_to_rgba(text.as_str(), line) {
            Err(e) => itp.fail(e),
            Ok(colour) => {
                if state.app.is_some() {
                    itp.ask(
                        Request::FillScreen {
                            red: colour[0],
                            green: colour[1],
                            blue: colour[2],
                            alpha: colour[3],
                        },
                    );
                } else {
                    itp.give(Expr::Boolean(false));
                }
            },
        },
    }
}


/// A frame in which every whole pixel has the colour `colour`. A pixel is
/// four bytes; bytes after the last whole pixel stay as they are.
pub open spec fn filled(frame: Seq<u8>, colour: Seq<u8>) -> Seq<u8> {
    Seq::new(
        frame.len(),
        |i: int|
            if i < (frame.len() / 4) * 4 {
                colour[i % 4]
            } else {
                frame[i]
            },
    )
}

/// Gives every whole pixel of `frame` the colour `colour`.
pub fn fill_frame(frame: &mut [u8], colour: [u8; 4])
    ensures
        final(frame)@ == filled(old(frame)@, colour@),
{
    let whole = (frame.len() / 4) * 4;
    let mut i: usize = 0;
    while i < whole
        invariant
            i <= whole,
            whole == (old(frame)@.len() / 4) * 4,
            frame@.len() == old(frame)@.len(),
            forall|j: int| 0 <= j < i ==> frame@[j] == colour@[j % 4],
            forall|j: int| i <= j < frame@.len() ==> frame@[j] == old(frame)@[j],
        decreases whole - i,
    {
        frame[i] = colour[i % 4];
        i += 1;
    }
}


/// Whether the byte at `index` of a frame of `len` bytes belongs to a pixel
/// that a square paints: the pixel lies in the frame as a whole, inside a
/// window of `width` by `height` pixels, and inside the square of side
/// `size` whose top left corner is at column `x` and row `y`.
pub open spec fn paints(index: int, len: int, width: int, height: int, size: int, x: int, y: int)
    -> bool {
    let pixel = index / 4;
    &&& width > 0
    &&& 0 <= index
    &&& pixel / width < height
    &&& x <= pixel % width < x + size
    &&& y <= pixel / width < y + size
    &&& pixel * 4 + 4 <= len
}

/// A frame on which a square is painted in the colour `colour`.
pub open spec fn squared(
    frame: Seq<u8>,
    width: int,
    height: int,
    size: int,
    x: int,
    y: int,
    colour: Seq<u8>,
) -> Seq<u8> {
    Seq::new(
        frame.len(),
        |i: int|
            if paints(i, frame.len() as int, width, height, size, x, y) {
                colour[i % 4]
            } else {
                frame[i]
            },
    )
}

/// The position `at`, kept between zero and `limit`.
fn clip(at: i128, limit: u32) -> (clipped: u64)
    ensures
        clipped == (if at < 0 {
            0
        } else if at > limit {
            limit as int
        } else {
            at as int
        }),
{
    if at < 0 {
        0
    } else if at > limit as i128 {
        limit as u64
    } else {
        at as u64
    }
}

/// The bytes of the pixel in column `px` of row `py` are the four from
/// `(py * width + px) * 4` on, and no byte of another pixel.
proof fn lemma_pixel_bytes(index: int, width: int, px: int, py: int)
    requires
        0 <= px < width,
        0 <= py,
        0 <= index,
    ensures
        ((index / 4) / width == py && (index / 4) % width == px) <==> (py * width + px) * 4
            <= index < (py * width + px) * 4 + 4,
        0 <= index / 4,
        0 <= (index / 4) / width,
        0 <= (index / 4) % width < width,
{
    let pixel = index / 4;
    vstd::arithmetic::div_mod::lemma_fundamental_div_mod(pixel, width);
    vstd::arithmetic::div_mod::lemma_mod_bound(pixel, width);
    vstd::arithmetic::div_mod::lemma_div_pos_is_pos(pixel, width);
    if pixel == py * width + px {
        vstd::arithmetic::div_mod::lemma_fundamental_div_mod_converse(pixel, width, py, px);
    }
    if pixel / width == py && pixel % width == px {
        assert(width * py == py * width) by (nonlinear_arith);
    }
}

/// Paints a square of side `size` with its top left corner at column `x`
/// and row `y` on a frame of `width` by `height` pixels. What lies outside
/// the window or outside the frame is left out.
pub fn draw_rect(
    frame: &mut [u8],
    width: u32,
    height: u32,
    size: i64,
    x: i64,
    y: i64,
    colour: [u8; 4],
)
    ensures
        final(frame)@ == squared(
            old(frame)@,
            width as int,
            height as int,
            size as int,
            x as int,
            y as int,
            colour@,
        ),
{
    let len = frame.len();
    let left = clip(x as i128, width);
    let right = clip(x as i128 + size as i128, width);
    let top = clip(y as i128, height);
    let bottom = clip(y as i128 + size as i128, height);
    let ghost before = frame@;
    let mut py: u64 = top;
    while py < bottom
        invariant
            len == before.len(),
            frame@.len() == before.len(),
            left == (if x < 0 {
                0
            } else if x > width {
                width as int
            } else {
                x as int
            }),
            right == (if x + size < 0 {
                0
            } else if x + size > width {
                width as int
            } else {
                x + size
            }),
            top <= py,
            py <= bottom || bottom < top,
            top == (if y < 0 {
                0
            } else if y > height {
                height as int
            } else {
                y as int
            }),
            bottom == (if y + size < 0 {
                0
            } else if y + size > height {
                height as int
            } else {
                y + size
            }),
            forall|i: int|
                0 <= i < before.len() ==> #[trigger] frame@[i] == (if paints(
                    i,
                    before.len() as int,
                    width as int,
                    height as int,
                    size as int,
                    x as int,
                    y as int,
                ) && (i / 4) / (width as int) < py {
                    colour@[i % 4]
                } else {
                    before[i]
                }),
        decreases bottom - py,
    {
        let mut px: u64 = left;
        while px < right
            invariant
                len == before.len(),
                frame@.len() == before.len(),
                right <= width,
                left <= px,
                px <= right || right < left,
                left == (if x < 0 {
                    0
                } else if x > width {
                    width as int
                } else {
                    x as int
                }),
                right == (if x + size < 0 {
                    0
                } else if x + size > width {
                    width as int
                } else {
                    x + size
                }),
                top <= py < bottom <= height,
                top == (if y < 0 {
                    0
                } else if y > height {
                    height as int
                } else {
                    y as int
                }),
                bottom == (if y + size < 0 {
                    0
                } else if y + size > height {
                    height as int
                } else {
                    y + size
                }),
                forall|i: int|
                    0 <= i < before.len() ==> #[trigger] frame@[i] == (if paints(
                        i,
                        before.len() as int,
                        width as int,
                        height as int,
                        size as int,
                        x as int,
                        y as int,
                    ) && ((i / 4) / (width as int) < py || ((i / 4) / (width as int) == py && (i
                        / 4) % (width as int) < px)) {
                        colour@[i % 4]
                    } else {
                        before[i]
                    }),
            decreases right - px,
        {
            assert(py * width + px < 0x1_0000_0000 * 0x1_0000_0000) by (nonlinear_arith)
                requires
                    py < height,
                    px < width,
                    width <= 0xffff_ffff,
                    height <= 0xffff_ffff,
            ;
            let first: u128 = (py as u128 * width as u128 + px as u128) * 4;
            let ghost start = (py * width + px) * 4;
            if first + 4 <= len as u128 {
                let at = first as usize;
                frame[at] = colour[0];
                frame[at + 1] = colour[1];
                frame[at + 2] = colour[2];
                frame[at + 3] = colour[3];
            }
            proof {
                assert forall|i: int| 0 <= i < before.len() implies #[trigger] frame@[i] == (if paints(
                    i,
                    before.len() as int,
                    width as int,
                    height as int,
                    size as int,
                    x as int,
                    y as int,
                ) && ((i / 4) / (width as int) < py || ((i / 4) / (width as int) == py && (i / 4)
                    % (width as int) < px + 1)) {
                    colour@[i % 4]
                } else {
                    before[i]
                }) by {
                    lemma_pixel_bytes(i, width as int, px as int, py as int);
                    if start <= i < start + 4 {
                    }
                }
            }
            px += 1;
        }
        proof {
            assert forall|i: int| 0 <= i < before.len() implies #[trigger] frame@[i] == (if paints(
                i,
                before.len() as int,
                width as int,
                height as int,
                size as int,
                x as int,
                y as int,
            ) && (i / 4) / (width as int) < py + 1 {
                colour@[i % 4]
            } else {
                before[i]
            }) by {
                if width > 0 {
                    vstd::arithmetic::div_mod::lemma_mod_bound(i / 4, width as int);
                }
            }
        }
        py += 1;
    }
    proof {
        assert forall|i: int| 0 <= i < before.len() implies frame@[i] == squared(
            before,
            width as int,
            height as int,
            size as int,
            x as int,
            y as int,
            colour@,
        )[i] by {
            if width > 0 {
                vstd::arithmetic::div_mod::lemma_div_pos_is_pos(i / 4, width as int);
            }
        }
    }
}

} // verus!
