//! The per-frame input snapshot and its query functions.
//!
//! The GUI state machine reads input through a fixed snapshot: one record
//! per mouse button (down state, click count, click position) and one per
//! enumerated key (down state, click count), plus cursor positions and a
//! scroll delta. The queries below are total: a missing snapshot (`None`)
//! answers `0`, and every other answer is `0` or `1` except
//! `nk_input_is_mouse_down`, which hands back the stored down state.

use vstd::prelude::*;

use crate::math::Point;
use crate::math::Rect;
use crate::math::rect_contains;
use crate::math::rect_contains_point;

verus! {

/// Identifies a mouse button; values `0..NK_BUTTON_MAX` index
/// `Mouse::buttons`.
pub type Buttons = u32;

pub const NK_BUTTON_LEFT: Buttons = 0;

pub const NK_BUTTON_MIDDLE: Buttons = 1;

pub const NK_BUTTON_RIGHT: Buttons = 2;

pub const NK_BUTTON_DOUBLE: Buttons = 3;

pub const NK_BUTTON_MAX: Buttons = 4;

/// Identifies a key; values `0..NK_KEY_MAX` index `Keyboard::keys`.
pub type Keys = u32;

pub const NK_KEY_NONE: Keys = 0;

pub const NK_KEY_SHIFT: Keys = 1;

pub const NK_KEY_CTRL: Keys = 2;

pub const NK_KEY_DEL: Keys = 3;

pub const NK_KEY_ENTER: Keys = 4;

pub const NK_KEY_TAB: Keys = 5;

pub const NK_KEY_BACKSPACE: Keys = 6;

pub const NK_KEY_COPY: Keys = 7;

pub const NK_KEY_CUT: Keys = 8;

pub const NK_KEY_PASTE: Keys = 9;

pub const NK_KEY_UP: Keys = 10;

pub const NK_KEY_DOWN: Keys = 11;

pub const NK_KEY_LEFT: Keys = 12;

pub const NK_KEY_RIGHT: Keys = 13;

pub const NK_KEY_TEXT_INSERT_MODE: Keys = 14;

pub const NK_KEY_TEXT_REPLACE_MODE: Keys = 15;

pub const NK_KEY_TEXT_RESET_MODE: Keys = 16;

pub const NK_KEY_TEXT_LINE_START: Keys = 17;

pub const NK_KEY_TEXT_LINE_END: Keys = 18;

pub const NK_KEY_TEXT_START: Keys = 19;

pub const NK_KEY_TEXT_END: Keys = 20;

pub const NK_KEY_TEXT_UNDO: Keys = 21;

pub const NK_KEY_TEXT_REDO: Keys = 22;

pub const NK_KEY_TEXT_SELECT_ALL: Keys = 23;

pub const NK_KEY_TEXT_WORD_LEFT: Keys = 24;

pub const NK_KEY_TEXT_WORD_RIGHT: Keys = 25;

pub const NK_KEY_SCROLL_START: Keys = 26;

pub const NK_KEY_SCROLL_END: Keys = 27;

pub const NK_KEY_SCROLL_DOWN: Keys = 28;

pub const NK_KEY_SCROLL_UP: Keys = 29;

pub const NK_KEY_MAX: Keys = 30;

/// One key's state: `down` is nonzero while the key is held, `clicked`
/// counts state changes recorded since the snapshot began.
#[derive(Clone, Copy, PartialEq, Eq, Structural, Debug)]
pub struct Key {
    pub down: i32,
    pub clicked: u32,
}

/// The keyboard half of the snapshot: one record per enumerated key and
/// the text typed since the previous frame.
#[derive(Clone, Copy, PartialEq, Eq, Debug)]
pub struct Keyboard {
    pub keys: [Key; 30],
    pub text: [u8; 16],
    pub text_len: i32,
}

/// One mouse button's state, with the position of its last click.
#[derive(Clone, Copy, PartialEq, Eq, Structural, Debug)]
pub struct MouseButton {
    pub down: i32,
    pub clicked: u32,
    pub clicked_pos: Point,
}

/// The mouse half of the snapshot: button records, current and previous
/// cursor position, movement delta, scroll delta, and grab flags.
#[derive(Clone, Copy, PartialEq, Eq, Debug)]
pub struct Mouse {
    pub buttons: [MouseButton; 4],
    pub pos: Point,
    pub prev: Point,
    pub delta: Point,
    pub scroll_delta: Point,
    pub grab: u8,
    pub grabbed: u8,
    pub ungrab: u8,
}

/// A full input snapshot, swapped in once per frame.
#[derive(Clone, Copy, PartialEq, Eq, Debug)]
pub struct Input {
    pub keyboard: Keyboard,
    pub mouse: Mouse,
}

/// Button `id` was clicked and has since been released.
pub open spec fn spec_has_mouse_click(inp: Input, id: Buttons) -> bool {
    let btn = inp.mouse.buttons@[id as int];
    btn.clicked != 0 && btn.down == 0
}

/// Button `id` was released after a click: same condition as
/// `spec_has_mouse_click`, under the released-button query's name.
pub open spec fn spec_is_mouse_released(inp: Input, id: Buttons) -> bool {
    let btn = inp.mouse.buttons@[id as int];
    btn.down == 0 && btn.clicked != 0
}

/// Key `key` went up this frame: it is up with a click recorded, or it is
/// down again after at least two state changes.
pub open spec fn spec_is_key_released(inp: Input, key: Keys) -> bool {
    let k = inp.keyboard.keys@[key as int];
    (k.down == 0 && k.clicked != 0) || (k.down != 0 && k.clicked >= 2)
}

/// Key `key` is held down.
pub open spec fn spec_is_key_down(inp: Input, key: Keys) -> bool {
    inp.keyboard.keys@[key as int].down != 0
}

/// Key `key` went down this frame: it is down with a click recorded, or
/// it is up again after at least two state changes.
pub open spec fn spec_is_key_pressed(inp: Input, key: Keys) -> bool {
    let k = inp.keyboard.keys@[key as int];
    (k.down != 0 && k.clicked != 0) || (k.down == 0 && k.clicked >= 2)
}

/// Button `id` is held down.
pub open spec fn spec_is_mouse_down(inp: Input, id: Buttons) -> bool {
    inp.mouse.buttons@[id as int].down != 0
}

/// Button `id` went down this frame: down with a click recorded.
pub open spec fn spec_is_mouse_pressed(inp: Input, id: Buttons) -> bool {
    let btn = inp.mouse.buttons@[id as int];
    btn.down != 0 && btn.clicked != 0
}

/// Button `id`'s last click landed in `b`.
pub open spec fn spec_has_mouse_click_in_rect(inp: Input, id: Buttons, b: Rect) -> bool {
    rect_contains(b, inp.mouse.buttons@[id as int].clicked_pos)
}

/// Button `id`'s last click landed in `b` and its down state equals
/// `down`.
pub open spec fn spec_has_mouse_click_down_in_rect(
    inp: Input,
    id: Buttons,
    b: Rect,
    down: i32,
) -> bool {
    spec_has_mouse_click_in_rect(inp, id, b) && inp.mouse.buttons@[id as int].down == down
}

/// Button `id` was clicked in `b` and released: its last click landed in
/// `b`, it is up, and a click is recorded.
pub open spec fn spec_is_mouse_click_in_rect(inp: Input, id: Buttons, b: Rect) -> bool {
    spec_has_mouse_click_down_in_rect(inp, id, b, 0) && inp.mouse.buttons@[id as int].clicked != 0
}

/// Some button was clicked in `b` and released.
pub open spec fn spec_any_mouse_click_in_rect(inp: Input, b: Rect) -> bool {
    exists|id: Buttons| id < NK_BUTTON_MAX && spec_is_mouse_click_in_rect(inp, id, b)
}

/// The cursor is in `rect`.
pub open spec fn spec_is_mouse_hovering_rect(inp: Input, rect: Rect) -> bool {
    rect_contains(rect, inp.mouse.pos)
}

/// The previous frame's cursor position is in `rect`.
pub open spec fn spec_is_mouse_prev_hovering_rect(inp: Input, rect: Rect) -> bool {
    rect_contains(rect, inp.mouse.prev)
}

/// Click of button `id` in `rect` while the cursor hovers `rect`.
pub open spec fn spec_mouse_clicked(inp: Input, id: Buttons, rect: Rect) -> bool {
    spec_is_mouse_hovering_rect(inp, rect) && spec_is_mouse_click_in_rect(inp, id, rect)
}

/// `1` when button `id` was clicked and released, else `0`.
pub fn nk_input_has_mouse_click(i: Option<&Input>, id: Buttons) -> (r: i32)
    requires
        id < NK_BUTTON_MAX,
    ensures
        r == 0 || r == 1,
        r == 1 <==> i is Some && spec_has_mouse_click(*i.unwrap(), id),
{
    match i {
        None => 0,
        Some(inp) => {
            let btn = &inp.mouse.buttons[id as usize];
            if 0 != btn.clicked && btn.down == 0 {
                1
            } else {
                0
            }
        },
    }
}

/// `1` when button `id` is up with a click recorded, else `0`.
pub fn nk_input_is_mouse_released(i: Option<&Input>, id: Buttons) -> (r: i32)
    requires
        id < NK_BUTTON_MAX,
    ensures
        r == 0 || r == 1,
        r == 1 <==> i is Some && spec_is_mouse_released(*i.unwrap(), id),
{
    match i {
        None => 0,
        Some(inp) => {
            let btn = &inp.mouse.buttons[id as usize];
            if btn.down == 0 && btn.clicked != 0 {
                1
            } else {
                0
            }
        },
    }
}

/// `1` when key `key` went up this frame, else `0`.
pub fn nk_input_is_key_released(i: Option<&Input>, key: Keys) -> (r: i32)
    requires
        key < NK_KEY_MAX,
    ensures
        r == 0 || r == 1,
        r == 1 <==> i is Some && spec_is_key_released(*i.unwrap(), key),
{
    match i {
        None => 0,
        Some(inp) => {
            let k = &inp.keyboard.keys[key as usize];
            if (k.down == 0 && k.clicked != 0) || (k.down != 0 && k.clicked >= 2) {
                1
            } else {
                0
            }
        },
    }
}

/// `1` when key `key` is held down, else `0`.
pub fn nk_input_is_key_down(i: Option<&Input>, key: Keys) -> (r: i32)
    requires
        key < NK_KEY_MAX,
    ensures
        r == 0 || r == 1,
        r == 1 <==> i is Some && spec_is_key_down(*i.unwrap(), key),
{
    match i {
        None => 0,
        Some(inp) => {
            let k = &inp.keyboard.keys[key as usize];
            if k.down != 0 {
                1
            } else {
                0
            }
        },
    }
}

/// `1` when key `key` went down this frame, else `0`.
pub fn nk_input_is_key_pressed(i: Option<&Input>, key: Keys) -> (r: i32)
    requires
        key < NK_KEY_MAX,
    ensures
        r == 0 || r == 1,
        r == 1 <==> i is Some && spec_is_key_pressed(*i.unwrap(), key),
{
    match i {
        None => 0,
        Some(inp) => {
            let k = &inp.keyboard.keys[key as usize];
            if (k.down != 0 && k.clicked != 0) || (k.down == 0 && k.clicked >= 2) {
                1
            } else {
                0
            }
        },
    }
}

/// The stored down state of button `id`, or `0` with no snapshot.
pub fn nk_input_is_mouse_down(i: Option<&Input>, id: Buttons) -> (r: i32)
    requires
        id < NK_BUTTON_MAX,
    ensures
        i is None ==> r == 0,
        i is Some ==> r == i.unwrap().mouse.buttons@[id as int].down,
{
    match i {
        None => 0,
        Some(inp) => inp.mouse.buttons[id as usize].down,
    }
}

/// `1` when button `id` went down this frame, else `0`.
pub fn nk_input_is_mouse_pressed(i: Option<&Input>, id: Buttons) -> (r: i32)
    requires
        id < NK_BUTTON_MAX,
    ensures
        r == 0 || r == 1,
        r == 1 <==> i is Some && spec_is_mouse_pressed(*i.unwrap(), id),
{
    match i {
        None => 0,
        Some(inp) => {
            let btn = &inp.mouse.buttons[id as usize];
            if btn.down != 0 && btn.clicked != 0 {
                1
            } else {
                0
            }
        },
    }
}

/// `1` when button `id`'s last click landed in `b`, else `0`.
pub fn nk_input_has_mouse_click_in_rect(i: Option<&Input>, id: Buttons, b: Rect) -> (r: i32)
    requires
        id < NK_BUTTON_MAX,
    ensures
        r == 0 || r == 1,
        r == 1 <==> i is Some && spec_has_mouse_click_in_rect(*i.unwrap(), id, b),
{
    match i {
        None => 0,
        Some(inp) => {
            let btn = &inp.mouse.buttons[id as usize];
            if rect_contains_point(&b, &btn.clicked_pos) {
                1
            } else {
                0
            }
        },
    }
}

/// `1` when button `id`'s last click landed in `b` and its down state
/// equals `down`, else `0`.
pub fn nk_input_has_mouse_click_down_in_rect(
    i: Option<&Input>,
    id: Buttons,
    b: Rect,
    down: i32,
) -> (r: i32)
    requires
        id < NK_BUTTON_MAX,
    ensures
        r == 0 || r == 1,
        r == 1 <==> i is Some && spec_has_mouse_click_down_in_rect(*i.unwrap(), id, b, down),
{
    match i {
        None => 0,
        Some(inp) => {
            let in_rect = nk_input_has_mouse_click_in_rect(Some(inp), id, b);
            let btn = &inp.mouse.buttons[id as usize];
            if in_rect != 0 && btn.down == down {
                1
            } else {
                0
            }
        },
    }
}

/// `1` when button `id` was clicked in `b` and released, else `0`.
pub fn nk_input_is_mouse_click_in_rect(i: Option<&Input>, id: Buttons, b: Rect) -> (r: i32)
    requires
        id < NK_BUTTON_MAX,
    ensures
        r == 0 || r == 1,
        r == 1 <==> i is Some && spec_is_mouse_click_in_rect(*i.unwrap(), id, b),
{
    match i {
        None => 0,
        Some(inp) => {
            let down_in_rect = nk_input_has_mouse_click_down_in_rect(Some(inp), id, b, 0);
            let btn = &inp.mouse.buttons[id as usize];
            if down_in_rect != 0 && btn.clicked != 0 {
                1
            } else {
                0
            }
        },
    }
}

/// `1` when any button was clicked in `b` and released, else `0`.
pub fn nk_input_any_mouse_click_in_rect(in_0: Option<&Input>, b: Rect) -> (r: i32)
    ensures
        r == 0 || r == 1,
        r == 1 <==> in_0 is Some && spec_any_mouse_click_in_rect(*in_0.unwrap(), b),
{
    let mut down: i32 = 0;
    let mut i: u32 = 0;
    while i < NK_BUTTON_MAX
        invariant
            i <= NK_BUTTON_MAX,
            down == 0 || down == 1,
            down == 1 <==> in_0 is Some && exists|id: Buttons|
                id < i && spec_is_mouse_click_in_rect(*in_0.unwrap(), id, b),
        decreases NK_BUTTON_MAX - i,
    {
        if nk_input_is_mouse_click_in_rect(in_0, i, b) != 0 {
            down = 1;
        }
        i = i + 1;
    }
    down
}

/// `1` when the cursor is in `rect`, else `0`.
pub fn nk_input_is_mouse_hovering_rect(i: Option<&Input>, rect: Rect) -> (r: i32)
    ensures
        r == 0 || r == 1,
        r == 1 <==> i is Some && spec_is_mouse_hovering_rect(*i.unwrap(), rect),
{
    match i {
        None => 0,
        Some(inp) => {
            if rect_contains_point(&rect, &inp.mouse.pos) {
                1
            } else {
                0
            }
        },
    }
}

/// `1` when the previous frame's cursor position is in `rect`, else `0`.
pub fn nk_input_is_mouse_prev_hovering_rect(i: Option<&Input>, rect: Rect) -> (r: i32)
    ensures
        r == 0 || r == 1,
        r == 1 <==> i is Some && spec_is_mouse_prev_hovering_rect(*i.unwrap(), rect),
{
    match i {
        None => 0,
        Some(inp) => {
            if rect_contains_point(&rect, &inp.mouse.prev) {
                1
            } else {
                0
            }
        },
    }
}

/// `1` when button `id` was clicked in `rect` while the cursor hovers
/// `rect`, else `0`.
pub fn nk_input_mouse_clicked(i: Option<&Input>, id: Buttons, rect: Rect) -> (r: i32)
    requires
        id < NK_BUTTON_MAX,
    ensures
        r == 0 || r == 1,
        r == 1 <==> i is Some && spec_mouse_clicked(*i.unwrap(), id, rect),
{
    match i {
        None => 0,
        Some(inp) => {
            if nk_input_is_mouse_hovering_rect(Some(inp), rect) == 0 {
                0
            } else {
                nk_input_is_mouse_click_in_rect(Some(inp), id, rect)
            }
        },
    }
}

} // verus!
