//! Window geometry: rectangles and hit tests, the borderless chrome (close
//! button, drag strip), centring, the dialog's layout, and the mouse position
//! packed into a window message.

use vstd::prelude::*;

verus! {

/// A rectangle in client or screen coordinates; `right` and `bottom` are exclusive.
#[derive(Clone, Copy, PartialEq, Eq, Structural, Debug)]
pub struct Rect {
    pub left: i32,
    pub top: i32,
    pub right: i32,
    pub bottom: i32,
}

impl Rect {
    /// The all-zero rectangle, which contains no point.
    pub fn zero() -> (r: Rect)
        ensures
            r == (Rect { left: 0, top: 0, right: 0, bottom: 0 }),
    {
        Rect { left: 0, top: 0, right: 0, bottom: 0 }
    }
}

/// `(x, y)` lies in `r`.
pub open spec fn contains(r: Rect, x: int, y: int) -> bool {
    r.left <= x < r.right && r.top <= y < r.bottom
}

/// Whether `(x, y)` lies in `r`.
pub fn in_rect(r: Rect, x: i32, y: i32) -> (b: bool)
    ensures
        b == contains(r, x as int, y as int),
{
    x >= r.left && x < r.right && y >= r.top && y < r.bottom
}

/// Width of the custom close button in the top-right corner.
pub const CLOSE_BTN_W: i32 = 46;
/// Height of the custom close button.
pub const CLOSE_BTN_H: i32 = 36;
/// Height of the strip at the top of a borderless window that drags it.
pub const DRAG_STRIP_H: i32 = 92;

/// The close button of a window whose client area ends at `client_right`.
pub open spec fn close_button(client_right: int) -> Rect {
    Rect {
        left: (client_right - CLOSE_BTN_W) as i32,
        top: 0,
        right: client_right as i32,
        bottom: CLOSE_BTN_H,
    }
}

/// The close button of a window whose client area ends at `client_right`.
pub fn close_btn_rect(client_right: i32) -> (r: Rect)
    requires
        client_right >= i32::MIN + CLOSE_BTN_W,
    ensures
        r == close_button(client_right as int),
{
    Rect { left: client_right - CLOSE_BTN_W, top: 0, right: client_right, bottom: CLOSE_BTN_H }
}

/// A press at `(x, y)` drags the window: it is in the top strip and not on the
/// close button.
pub fn starts_drag(x: i32, y: i32, client_right: i32) -> (b: bool)
    requires
        client_right >= i32::MIN + CLOSE_BTN_W,
    ensures
        b == (y < DRAG_STRIP_H && !contains(close_button(client_right as int), x as int, y as int)),
{
    y < DRAG_STRIP_H && !in_rect(close_btn_rect(client_right), x, y)
}

/// The two strokes of the close button's cross, each as `(x0, y0, x1, y1)`:
/// centred on the button, 5 pixels to each side (one more at the far end,
/// which `LineTo` leaves out).
pub fn close_glyph(rc: Rect) -> (r: ((i32, i32, i32, i32), (i32, i32, i32, i32)))
    requires
        i32::MIN <= rc.left + rc.right <= i32::MAX,
        i32::MIN <= rc.top + rc.bottom <= i32::MAX,
        i32::MIN + 6 <= (rc.left + rc.right) / 2 <= i32::MAX - 6,
        i32::MIN + 6 <= (rc.top + rc.bottom) / 2 <= i32::MAX - 6,
    ensures
        ({
            let cx = trunc_div(rc.left + rc.right, 2);
            let cy = trunc_div(rc.top + rc.bottom, 2);
            &&& r.0 == ((cx - 5) as i32, (cy - 5) as i32, (cx + 6) as i32, (cy + 6) as i32)
            &&& r.1 == ((cx + 5) as i32, (cy - 5) as i32, (cx - 6) as i32, (cy + 6) as i32)
        }),
{
    let cx = (rc.left + rc.right) / 2;
    let cy = (rc.top + rc.bottom) / 2;
    let s: i32 = 5;
    ((cx - s, cy - s, cx + s + 1, cy + s + 1), (cx + s, cy - s, cx - s - 1, cy + s + 1))
}

/// Integer division rounding towards zero, as Rust's `/` on signed integers does.
pub open spec fn trunc_div(a: int, b: int) -> int {
    if a >= 0 {
        a / b
    } else {
        -((-a) / b)
    }
}

/// The centre a window is placed around: that of the work area when it is not
/// empty, else that of the screen.
pub open spec fn placement_centre(work: Rect, screen_w: int, screen_h: int) -> (int, int) {
    if work.right > work.left {
        (
            work.left + trunc_div(work.right - work.left, 2),
            work.top + trunc_div(work.bottom - work.top, 2),
        )
    } else {
        (trunc_div(screen_w, 2), trunc_div(screen_h, 2))
    }
}

/// The top-left corner that centres a `w` by `h` window on the work area (or,
/// when the work area is empty, on a `screen_w` by `screen_h` screen).
pub fn centred_origin(work: Rect, screen_w: i32, screen_h: i32, w: i32, h: i32) -> (r: (i32, i32))
    requires
        work.right > work.left ==> {
            &&& work.right - work.left <= i32::MAX
            &&& i32::MIN <= work.bottom - work.top <= i32::MAX
            &&& i32::MIN <= work.top + trunc_div(work.bottom - work.top, 2) <= i32::MAX
        },
        i32::MIN <= placement_centre(work, screen_w as int, screen_h as int).0 - trunc_div(w as int, 2)
            <= i32::MAX,
        i32::MIN <= placement_centre(work, screen_w as int, screen_h as int).1 - trunc_div(h as int, 2)
            <= i32::MAX,
    ensures
        r.0 == placement_centre(work, screen_w as int, screen_h as int).0 - trunc_div(w as int, 2),
        r.1 == placement_centre(work, screen_w as int, screen_h as int).1 - trunc_div(h as int, 2),
{
    let (cx, cy) = if work.right > work.left {
        (work.left + (work.right - work.left) / 2, work.top + (work.bottom - work.top) / 2)
    } else {
        (screen_w / 2, screen_h / 2)
    };
    (cx - w / 2, cy - h / 2)
}

// ---------------------------------------------------------------- dialog layout

/// Width of the message dialog.
pub const DLG_W: i32 = 430;
/// Least height of the message dialog.
pub const DLG_H: i32 = 248;
/// Least width of a dialog button.
pub const DLG_BTN_W: i32 = 116;
/// Height of a dialog button.
pub const DLG_BTN_H: i32 = 34;
/// Horizontal padding of a button's label.
pub const DLG_BTN_PAD_X: i32 = 18;
/// Gap between the dialog's body text and its buttons.
pub const DLG_BODY_GAP: i32 = 28;
/// Distance of the dialog's content from its left and right edges.
pub const DLG_PAD: i32 = 28;
/// Top of the dialog's body text.
pub const DLG_BODY_TOP: i32 = 96;
/// Space below the dialog's buttons.
pub const DLG_BOTTOM_MARGIN: i32 = 20;
/// Gap between the two dialog buttons.
pub const DLG_BTN_GAP: i32 = 12;

/// The width of a button whose label is `text_w` wide: the label plus its
/// padding, but never less than the least button width.
pub fn button_width(text_w: i32) -> (r: i32)
    requires
        text_w + 2 * DLG_BTN_PAD_X <= i32::MAX,
    ensures
        r == (if text_w + 2 * DLG_BTN_PAD_X >= DLG_BTN_W {
            text_w + 2 * DLG_BTN_PAD_X
        } else {
            DLG_BTN_W as int
        }),
        r >= DLG_BTN_W,
{
    let needed = text_w + 2 * DLG_BTN_PAD_X;
    if needed >= DLG_BTN_W {
        needed
    } else {
        DLG_BTN_W
    }
}

/// The height of a dialog whose word-wrapped body is `body_h` tall: room for
/// the heading, the body, the gap and the buttons, but never less than the
/// least dialog height.
pub fn dialog_height(body_h: i32) -> (r: i32)
    requires
        i32::MIN <= DLG_BODY_TOP + body_h + DLG_BODY_GAP + DLG_BTN_H + DLG_BOTTOM_MARGIN <= i32::MAX,
    ensures
        r == (if DLG_BODY_TOP + body_h + DLG_BODY_GAP + DLG_BTN_H + DLG_BOTTOM_MARGIN >= DLG_H {
            DLG_BODY_TOP + body_h + DLG_BODY_GAP + DLG_BTN_H + DLG_BOTTOM_MARGIN
        } else {
            DLG_H as int
        }),
        r >= DLG_H,
{
    let needed = DLG_BODY_TOP + body_h + DLG_BODY_GAP + DLG_BTN_H + DLG_BOTTOM_MARGIN;
    if needed >= DLG_H {
        needed
    } else {
        DLG_H
    }
}

/// The rectangle of a button `width` wide with its top-left corner at `(x, y)`.
pub fn button_rect(x: i32, y: i32, width: i32) -> (r: Rect)
    requires
        i32::MIN <= x + width <= i32::MAX,
        y + DLG_BTN_H <= i32::MAX,
    ensures
        r == (Rect { left: x, top: y, right: (x + width) as i32, bottom: (y + DLG_BTN_H) as i32 }),
{
    Rect { left: x, top: y, right: x + width, bottom: y + DLG_BTN_H }
}

/// Where the dialog's buttons go in a client area `client`: the primary one,
/// `primary_w` wide, at the bottom right; the secondary one, if any, to its
/// left. Without a secondary button its rectangle is all zero.
pub fn dialog_buttons(client: Rect, primary_w: i32, secondary_w: Option<i32>) -> (r: (Rect, Rect))
    requires
        i32::MIN + DLG_BOTTOM_MARGIN + DLG_BTN_H <= client.bottom,
        i32::MIN + DLG_PAD <= client.right,
        i32::MIN <= client.right - DLG_PAD - primary_w <= i32::MAX,
        secondary_w is Some ==> i32::MIN <= client.right - DLG_PAD - primary_w - DLG_BTN_GAP,
        secondary_w matches Some(sw) ==> i32::MIN <= client.right - DLG_PAD - primary_w - DLG_BTN_GAP
            - sw <= i32::MAX,
    ensures
        ({
            let by = client.bottom - DLG_BOTTOM_MARGIN - DLG_BTN_H;
            let px = client.right - DLG_PAD - primary_w;
            &&& r.0 == (Rect {
                left: px as i32,
                top: by as i32,
                right: (px + primary_w) as i32,
                bottom: (by + DLG_BTN_H) as i32,
            })
            &&& match secondary_w {
                Some(sw) => r.1 == (Rect {
                    left: (px - DLG_BTN_GAP - sw) as i32,
                    top: by as i32,
                    right: (px - DLG_BTN_GAP) as i32,
                    bottom: (by + DLG_BTN_H) as i32,
                }),
                None => r.1 == (Rect { left: 0, top: 0, right: 0, bottom: 0 }),
            }
        }),
{
    let by = client.bottom - DLG_BOTTOM_MARGIN - DLG_BTN_H;
    let px = client.right - DLG_PAD - primary_w;
    let primary = button_rect(px, by, primary_w);
    let secondary = match secondary_w {
        Some(sw) => {
            let sx = px - DLG_BTN_GAP - sw;
            button_rect(sx, by, sw)
        },
        None => Rect::zero(),
    };
    (primary, secondary)
}

/// The clickable area of the About window's link: the text, `text_w` by
/// `text_h`, drawn 28 pixels from the left and 40 above the bottom edge.
pub fn about_link_rect(client_bottom: i32, text_w: i32, text_h: i32) -> (r: Rect)
    requires
        i32::MIN + 40 <= client_bottom,
        i32::MIN <= 28 + text_w <= i32::MAX,
        i32::MIN <= client_bottom - 40 + text_h <= i32::MAX,
    ensures
        r == (Rect {
            left: 28,
            top: (client_bottom - 40) as i32,
            right: (28 + text_w) as i32,
            bottom: (client_bottom - 40 + text_h) as i32,
        }),
{
    let pad: i32 = 28;
    let link_top = client_bottom - 40;
    Rect { left: pad, top: link_top, right: pad + text_w, bottom: link_top + text_h }
}

// ---------------------------------------------------------------- colours and pixels

/// Packs three 8-bit colour channels into a Win32 `COLORREF` value (0x00BBGGRR).
pub fn rgb(r: u8, g: u8, b: u8) -> (c: u32)
    ensures
        c == r + g * 256 + b * 65536,
{
    let c = (r as u32) | ((g as u32) << 8) | ((b as u32) << 16);
    assert(c == r + g * 256 + b * 65536) by (bit_vector)
        requires
            c == (r as u32) | ((g as u32) << 8) | ((b as u32) << 16),
    ;
    c
}

/// Makes a 32-bit-per-pixel bitmap fully opaque: the alpha byte of each pixel
/// (every fourth byte, starting at index 3) becomes 255, and nothing else changes.
/// GDI leaves alpha at 0, which would make an icon drawn with it invisible.
pub fn make_opaque(bits: &mut Vec<u8>)
    ensures
        final(bits)@.len() == old(bits)@.len(),
        forall|i: int|
            0 <= i < old(bits)@.len() ==> #[trigger] final(bits)@[i] == (if i % 4 == 3 {
                255u8
            } else {
                old(bits)@[i]
            }),
{
    let n = bits.len();
    let pixels = n / 4;
    let mut p: usize = 0;
    while p < pixels
        invariant
            n == bits@.len(),
            n == old(bits)@.len(),
            pixels == n / 4,
            p <= pixels,
            forall|k: int|
                0 <= k < n ==> #[trigger] bits@[k] == (if k % 4 == 3 && k < 4 * p {
                    255u8
                } else {
                    old(bits)@[k]
                }),
        decreases pixels - p,
    {
        assert(4 * p + 3 < n) by (nonlinear_arith)
            requires
                p < pixels,
                pixels == n / 4,
        ;
        bits.set(4 * p + 3, 255);
        p = p + 1;
        assert forall|k: int| 0 <= k < n implies #[trigger] bits@[k] == (if k % 4 == 3 && k < 4
            * p {
            255u8
        } else {
            old(bits)@[k]
        }) by {
            if k % 4 == 3 && k < 4 * p && k >= 4 * (p - 1) {
                assert(k == 4 * (p - 1) + 3);
            }
        }
    }
    assert forall|k: int| 0 <= k < n && k % 4 == 3 implies #[trigger] bits@[k] == 255u8 by {
        assert(k < 4 * (n / 4)) by (nonlinear_arith)
            requires
                0 <= k < n,
                k % 4 == 3,
        ;
    }
}

// ---------------------------------------------------------------- window messages

/// The low 16 bits of a message parameter.
pub open spec fn low_word(l: int) -> int {
    l % 65536
}

/// The second 16 bits of a message parameter.
pub open spec fn high_word(l: int) -> int {
    (l / 65536) % 65536
}

/// A 16-bit word read as a two's complement signed number.
pub open spec fn signed_word(v: int) -> int {
    if v >= 32768 {
        v - 65536
    } else {
        v
    }
}

/// The client coordinates a mouse message carries in its `lparam`: the low
/// word is x, the next word is y, both signed (as `GET_X_LPARAM` reads them).
pub fn point_from_lparam(lparam: isize) -> (r: (i32, i32))
    ensures
        r.0 == signed_word(low_word(lparam as int)),
        r.1 == signed_word(high_word(lparam as int)),
{
    let x = (lparam & 0xffff) as i16 as i32;
    let y = ((lparam >> 16) & 0xffff) as i16 as i32;
    assert(x == signed_word(low_word(lparam as int))) by (bit_vector)
        requires
            x == (lparam & 0xffff) as i16 as i32,
    ;
    assert(y == signed_word(high_word(lparam as int))) by (bit_vector)
        requires
            y == ((lparam >> 16) & 0xffff) as i16 as i32,
    ;
    (x, y)
}

} // verus!
