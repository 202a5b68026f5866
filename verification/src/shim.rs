//! The per-frame input shim.
//!
//! Once per frame the backend samples the platform's key and mouse state
//! and feeds it to the GUI state machine as a fixed sequence of events:
//! buffered text first, then the enumerated key table, cursor motion, the
//! three real buttons, the synthesized double-click button, and the
//! scroll delta. The shim owns the state that persists between frames:
//! the text and scroll accumulators (cleared by the feed) and the
//! double-click tracking (updated by button events).
//!
//! Times are measured in microseconds on a monotonic clock.

use vstd::prelude::*;

use crate::input::Buttons;
use crate::input::Keys;
use crate::input::NK_BUTTON_DOUBLE;
use crate::input::NK_BUTTON_LEFT;
use crate::input::NK_BUTTON_MIDDLE;
use crate::input::NK_BUTTON_RIGHT;
use crate::input::NK_KEY_BACKSPACE;
use crate::input::NK_KEY_COPY;
use crate::input::NK_KEY_CUT;
use crate::input::NK_KEY_DEL;
use crate::input::NK_KEY_DOWN;
use crate::input::NK_KEY_ENTER;
use crate::input::NK_KEY_LEFT;
use crate::input::NK_KEY_PASTE;
use crate::input::NK_KEY_RIGHT;
use crate::input::NK_KEY_SCROLL_DOWN;
use crate::input::NK_KEY_SCROLL_END;
use crate::input::NK_KEY_SCROLL_START;
use crate::input::NK_KEY_SCROLL_UP;
use crate::input::NK_KEY_SHIFT;
use crate::input::NK_KEY_TAB;
use crate::input::NK_KEY_TEXT_END;
use crate::input::NK_KEY_TEXT_LINE_END;
use crate::input::NK_KEY_TEXT_LINE_START;
use crate::input::NK_KEY_TEXT_REDO;
use crate::input::NK_KEY_TEXT_START;
use crate::input::NK_KEY_TEXT_UNDO;
use crate::input::NK_KEY_TEXT_WORD_LEFT;
use crate::input::NK_KEY_TEXT_WORD_RIGHT;
use crate::input::NK_KEY_UP;
use crate::math::Point;

verus! {

/// How many code points the text accumulator holds at most.
pub const TEXT_MAX: usize = 256;

/// A second press no more than this long after the previous one is too
/// fast to be a double click.
pub const DOUBLE_CLICK_LO_US: u64 = 20_000;

/// A second press at least this long after the previous one is too slow
/// to be a double click.
pub const DOUBLE_CLICK_HI_US: u64 = 200_000;

/// One event of the per-frame feed into the GUI state machine.
#[derive(Clone, Copy, PartialEq, Eq, Structural, Debug)]
pub enum InputEvent {
    /// A buffered unicode code point.
    Unicode { cp: u32 },
    /// The polled state of one enumerated key.
    KeyState { key: Keys, down: i32 },
    /// The cursor position.
    Motion { x: i32, y: i32 },
    /// The state of one button, with the position it applies at.
    ButtonState { id: Buttons, x: i32, y: i32, down: i32 },
    /// The scroll delta accumulated since the previous frame.
    Scroll { x: i32, y: i32 },
}

/// The platform's key states, polled once per frame.
#[derive(Clone, Copy, PartialEq, Eq, Structural, Debug)]
pub struct PlatformKeys {
    pub delete: bool,
    pub enter: bool,
    pub tab: bool,
    pub backspace: bool,
    pub up: bool,
    pub down: bool,
    pub left: bool,
    pub right: bool,
    pub home: bool,
    pub end: bool,
    pub shift_left: bool,
    pub shift_right: bool,
    pub control_left: bool,
    pub control_right: bool,
    pub key_c: bool,
    pub key_v: bool,
    pub key_x: bool,
    pub key_z: bool,
    pub key_r: bool,
    pub key_b: bool,
    pub key_e: bool,
}

/// The platform's mouse state, polled once per frame.
#[derive(Clone, Copy, PartialEq, Eq, Structural, Debug)]
pub struct PlatformMouse {
    pub cursor_x: i32,
    pub cursor_y: i32,
    pub left_down: bool,
    pub middle_down: bool,
    pub right_down: bool,
}

/// The buffered text, as unicode events in the order it was typed.
pub open spec fn spec_unicode_events(text: Seq<u32>) -> Seq<InputEvent> {
    text.map_values(|cp: u32| InputEvent::Unicode { cp })
}

/// One key-table entry: the key's polled state as an event.
pub open spec fn key_state(key: Keys, down: bool) -> InputEvent {
    InputEvent::KeyState { key, down: press_val(down) }
}

/// The part of the key table fed on every frame, in feed order.
pub open spec fn spec_key_events_base(k: PlatformKeys) -> Seq<InputEvent> {
    seq![
        key_state(NK_KEY_DEL, k.delete),
        key_state(NK_KEY_ENTER, k.enter),
        key_state(NK_KEY_TAB, k.tab),
        key_state(NK_KEY_BACKSPACE, k.backspace),
        key_state(NK_KEY_UP, k.up),
        key_state(NK_KEY_DOWN, k.down),
        key_state(NK_KEY_TEXT_START, k.home),
        key_state(NK_KEY_TEXT_END, k.end),
        key_state(NK_KEY_SCROLL_START, k.home),
        key_state(NK_KEY_SCROLL_END, k.end),
        key_state(NK_KEY_SCROLL_DOWN, k.down),
        key_state(NK_KEY_SCROLL_UP, k.up),
        key_state(NK_KEY_SHIFT, k.shift_left || k.shift_right),
    ]
}

/// The key-table block fed while either control key is down: the same
/// physical keys stand for editing shortcuts.
pub open spec fn spec_key_events_ctrl(k: PlatformKeys) -> Seq<InputEvent> {
    seq![
        key_state(NK_KEY_COPY, k.key_c),
        key_state(NK_KEY_PASTE, k.key_v),
        key_state(NK_KEY_CUT, k.key_x),
        key_state(NK_KEY_TEXT_UNDO, k.key_z),
        key_state(NK_KEY_TEXT_REDO, k.key_r),
        key_state(NK_KEY_TEXT_WORD_LEFT, k.left),
        key_state(NK_KEY_TEXT_WORD_RIGHT, k.right),
        key_state(NK_KEY_TEXT_LINE_START, k.key_b),
        key_state(NK_KEY_TEXT_LINE_END, k.key_e),
    ]
}

/// The key-table block fed while no control key is down: plain arrows,
/// with the shortcut keys cleared.
pub open spec fn spec_key_events_plain(k: PlatformKeys) -> Seq<InputEvent> {
    seq![
        key_state(NK_KEY_LEFT, k.left),
        key_state(NK_KEY_RIGHT, k.right),
        key_state(NK_KEY_COPY, false),
        key_state(NK_KEY_PASTE, false),
        key_state(NK_KEY_CUT, false),
        key_state(NK_KEY_SHIFT, false),
    ]
}

/// The fixed key table, in feed order.
pub open spec fn spec_key_events(k: PlatformKeys) -> Seq<InputEvent> {
    spec_key_events_base(k) + if k.control_left || k.control_right {
        spec_key_events_ctrl(k)
    } else {
        spec_key_events_plain(k)
    }
}

/// The mouse block of the feed: cursor motion, the three real buttons at
/// the cursor, the synthesized double-click button at its stored
/// position, and the accumulated scroll delta.
pub open spec fn spec_mouse_events(s: ShimState, m: PlatformMouse) -> Seq<InputEvent> {
    seq![
        InputEvent::Motion { x: m.cursor_x, y: m.cursor_y },
        InputEvent::ButtonState {
            id: NK_BUTTON_LEFT,
            x: m.cursor_x,
            y: m.cursor_y,
            down: press_val(m.left_down),
        },
        InputEvent::ButtonState {
            id: NK_BUTTON_MIDDLE,
            x: m.cursor_x,
            y: m.cursor_y,
            down: press_val(m.middle_down),
        },
        InputEvent::ButtonState {
            id: NK_BUTTON_RIGHT,
            x: m.cursor_x,
            y: m.cursor_y,
            down: press_val(m.right_down),
        },
        InputEvent::ButtonState {
            id: NK_BUTTON_DOUBLE,
            x: s.double_click_pos.x,
            y: s.double_click_pos.y,
            down: s.is_double_click_down,
        },
        InputEvent::Scroll { x: s.scroll.x, y: s.scroll.y },
    ]
}

/// Everything one frame feeds to the GUI state machine, in order.
pub open spec fn spec_frame_events(s: ShimState, k: PlatformKeys, m: PlatformMouse) -> Seq<
    InputEvent,
> {
    spec_unicode_events(s.text@) + spec_key_events(k) + spec_mouse_events(s, m)
}

/// Shim state that persists across frames.
#[derive(Debug)]
pub struct ShimState {
    /// Unicode code points typed since the previous frame.
    pub text: Vec<u32>,
    /// Scroll delta accumulated since the previous frame.
    pub scroll: Point,
    /// When the left button last went down, in microseconds.
    pub last_button_click: u64,
    /// `1` while the synthesized double-click button is down.
    pub is_double_click_down: i32,
    /// Where the last detected double click happened.
    pub double_click_pos: Point,
}

/// `1` for a pressed key or button, `0` otherwise.
pub fn pressed(down: bool) -> (r: i32)
    ensures
        r == press_val(down),
{
    if down {
        1
    } else {
        0
    }
}

/// `1` for a pressed key or button, `0` otherwise.
pub open spec fn press_val(down: bool) -> i32 {
    if down {
        1
    } else {
        0
    }
}

/// Two presses `t0` then `t1` make a double click exactly when their
/// distance lies strictly between the two bounds.
pub open spec fn double_click_window(t0: u64, t1: u64) -> bool {
    DOUBLE_CLICK_LO_US < t1 - t0 < DOUBLE_CLICK_HI_US
}

/// The shim state after the left button goes down at `t_us` with the
/// cursor at `(x, y)`: the double-click flag is set exactly when the
/// press falls in the double-click window after the previous one, the
/// double-click position moves only on a detected double click, and the
/// press time is recorded.
pub open spec fn spec_after_press(s: ShimState, x: i32, y: i32, t_us: u64) -> ShimState {
    ShimState {
        is_double_click_down: press_val(double_click_window(s.last_button_click, t_us)),
        double_click_pos: if double_click_window(s.last_button_click, t_us) {
            Point { x, y }
        } else {
            s.double_click_pos
        },
        last_button_click: t_us,
        ..s
    }
}

/// The shim state after the left button goes up: the double-click flag
/// is cleared, everything else stays.
pub open spec fn spec_after_release(s: ShimState) -> ShimState {
    ShimState { is_double_click_down: 0, ..s }
}

impl ShimState {
    /// A fresh shim: empty accumulators, no click history.
    pub fn new() -> (s: ShimState)
        ensures
            s.text@ == Seq::<u32>::empty(),
            s.scroll == (Point { x: 0, y: 0 }),
            s.last_button_click == 0,
            s.is_double_click_down == 0,
            s.double_click_pos == (Point { x: 0, y: 0 }),
    {
        ShimState {
            text: Vec::new(),
            scroll: Point { x: 0, y: 0 },
            last_button_click: 0,
            is_double_click_down: 0,
            double_click_pos: Point { x: 0, y: 0 },
        }
    }

    /// Buffers one typed code point; once the accumulator is full, the
    /// code point is dropped.
    pub fn on_char(&mut self, cp: u32)
        ensures
            old(self).text@.len() < TEXT_MAX ==> final(self).text@ == old(self).text@.push(cp),
            old(self).text@.len() >= TEXT_MAX ==> final(self).text@ == old(self).text@,
            final(self).scroll == old(self).scroll,
            final(self).last_button_click == old(self).last_button_click,
            final(self).is_double_click_down == old(self).is_double_click_down,
            final(self).double_click_pos == old(self).double_click_pos,
    {
        if self.text.len() < TEXT_MAX {
            self.text.push(cp);
        }
    }

    /// Adds a scroll step to the accumulator.
    pub fn on_scroll(&mut self, dx: i32, dy: i32)
        requires
            i32::MIN <= old(self).scroll.x + dx <= i32::MAX,
            i32::MIN <= old(self).scroll.y + dy <= i32::MAX,
        ensures
            final(self).scroll.x == old(self).scroll.x + dx,
            final(self).scroll.y == old(self).scroll.y + dy,
            final(self).text@ == old(self).text@,
            final(self).last_button_click == old(self).last_button_click,
            final(self).is_double_click_down == old(self).is_double_click_down,
            final(self).double_click_pos == old(self).double_click_pos,
    {
        self.scroll.x = self.scroll.x + dx;
        self.scroll.y = self.scroll.y + dy;
    }

    /// Updates double-click tracking from one button event. Only the
    /// left button takes part: a press is a double click exactly when it
    /// falls strictly inside the double-click window after the previous
    /// press, and a release clears the flag.
    pub fn on_mouse_button(
        &mut self,
        is_left_button: bool,
        press: bool,
        x: i32,
        y: i32,
        time_us: u64,
    )
        ensures
            is_left_button && press ==> *final(self) == spec_after_press(
                *old(self),
                x,
                y,
                time_us,
            ),
            is_left_button && !press ==> *final(self) == spec_after_release(*old(self)),
            !is_left_button ==> *final(self) == *old(self),
    {
        if !is_left_button {
            return ;
        }
        if press {
            let double = time_us > self.last_button_click && {
                let dt = time_us - self.last_button_click;
                DOUBLE_CLICK_LO_US < dt && dt < DOUBLE_CLICK_HI_US
            };
            if double {
                self.is_double_click_down = 1;
                self.double_click_pos = Point { x, y };
            } else {
                self.is_double_click_down = 0;
            }
            self.last_button_click = time_us;
        } else {
            self.is_double_click_down = 0;
        }
    }

    /// Builds the frame's event feed from the polled platform state and
    /// this shim's accumulators, then clears the text and scroll
    /// accumulators; double-click tracking persists.
    pub fn frame_events(&mut self, keys: &PlatformKeys, mouse: &PlatformMouse) -> (evs: Vec<
        InputEvent,
    >)
        ensures
            evs@ == spec_frame_events(*old(self), *keys, *mouse),
            final(self).text@.len() == 0,
            final(self).scroll == (Point { x: 0, y: 0 }),
            final(self).last_button_click == old(self).last_button_click,
            final(self).is_double_click_down == old(self).is_double_click_down,
            final(self).double_click_pos == old(self).double_click_pos,
    {
        let mut evs: Vec<InputEvent> = Vec::new();
        push_unicode_events(&mut evs, &self.text);
        push_key_events(&mut evs, keys);
        push_mouse_events(&mut evs, self, mouse);
        proof {
            assert(evs@ =~= spec_frame_events(*self, *keys, *mouse));
        }
        self.text.clear();
        self.scroll = Point { x: 0, y: 0 };
        evs
    }
}

/// Appends one unicode event per buffered code point, in order.
fn push_unicode_events(evs: &mut Vec<InputEvent>, text: &Vec<u32>)
    ensures
        final(evs)@ == old(evs)@ + spec_unicode_events(text@),
{
    let mut i: usize = 0;
    while i < text.len()
        invariant
            i <= text.len(),
            evs@ == old(evs)@ + spec_unicode_events(text@.take(i as int)),
        decreases text.len() - i,
    {
        let cp = text[i];
        evs.push(InputEvent::Unicode { cp });
        proof {
            assert(spec_unicode_events(text@.take(i + 1)) =~= spec_unicode_events(
                text@.take(i as int),
            ).push(InputEvent::Unicode { cp }));
        }
        i = i + 1;
    }
    proof {
        assert(text@.take(text@.len() as int) =~= text@);
    }
}

/// Appends the part of the key table fed on every frame.
fn push_key_events_base(evs: &mut Vec<InputEvent>, keys: &PlatformKeys)
    ensures
        final(evs)@ == old(evs)@ + spec_key_events_base(*keys),
{
    evs.push(InputEvent::KeyState { key: NK_KEY_DEL, down: pressed(keys.delete) });
    evs.push(InputEvent::KeyState { key: NK_KEY_ENTER, down: pressed(keys.enter) });
    evs.push(InputEvent::KeyState { key: NK_KEY_TAB, down: pressed(keys.tab) });
    evs.push(InputEvent::KeyState { key: NK_KEY_BACKSPACE, down: pressed(keys.backspace) });
    evs.push(InputEvent::KeyState { key: NK_KEY_UP, down: pressed(keys.up) });
    evs.push(InputEvent::KeyState { key: NK_KEY_DOWN, down: pressed(keys.down) });
    evs.push(InputEvent::KeyState { key: NK_KEY_TEXT_START, down: pressed(keys.home) });
    evs.push(InputEvent::KeyState { key: NK_KEY_TEXT_END, down: pressed(keys.end) });
    evs.push(InputEvent::KeyState { key: NK_KEY_SCROLL_START, down: pressed(keys.home) });
    evs.push(InputEvent::KeyState { key: NK_KEY_SCROLL_END, down: pressed(keys.end) });
    evs.push(InputEvent::KeyState { key: NK_KEY_SCROLL_DOWN, down: pressed(keys.down) });
    evs.push(InputEvent::KeyState { key: NK_KEY_SCROLL_UP, down: pressed(keys.up) });
    evs.push(
        InputEvent::KeyState {
            key: NK_KEY_SHIFT,
            down: pressed(keys.shift_left || keys.shift_right),
        },
    );
    proof {
        assert(evs@ =~= old(evs)@ + spec_key_events_base(*keys));
    }
}

/// Appends the control-modified key block.
fn push_key_events_ctrl(evs: &mut Vec<InputEvent>, keys: &PlatformKeys)
    ensures
        final(evs)@ == old(evs)@ + spec_key_events_ctrl(*keys),
{
    evs.push(InputEvent::KeyState { key: NK_KEY_COPY, down: pressed(keys.key_c) });
    evs.push(InputEvent::KeyState { key: NK_KEY_PASTE, down: pressed(keys.key_v) });
    evs.push(InputEvent::KeyState { key: NK_KEY_CUT, down: pressed(keys.key_x) });
    evs.push(InputEvent::KeyState { key: NK_KEY_TEXT_UNDO, down: pressed(keys.key_z) });
    evs.push(InputEvent::KeyState { key: NK_KEY_TEXT_REDO, down: pressed(keys.key_r) });
    evs.push(InputEvent::KeyState { key: NK_KEY_TEXT_WORD_LEFT, down: pressed(keys.left) });
    evs.push(InputEvent::KeyState { key: NK_KEY_TEXT_WORD_RIGHT, down: pressed(keys.right) });
    evs.push(InputEvent::KeyState { key: NK_KEY_TEXT_LINE_START, down: pressed(keys.key_b) });
    evs.push(InputEvent::KeyState { key: NK_KEY_TEXT_LINE_END, down: pressed(keys.key_e) });
    proof {
        assert(evs@ =~= old(evs)@ + spec_key_events_ctrl(*keys));
    }
}

/// Appends the plain key block fed while control is up.
fn push_key_events_plain(evs: &mut Vec<InputEvent>, keys: &PlatformKeys)
    ensures
        final(evs)@ == old(evs)@ + spec_key_events_plain(*keys),
{
    evs.push(InputEvent::KeyState { key: NK_KEY_LEFT, down: pressed(keys.left) });
    evs.push(InputEvent::KeyState { key: NK_KEY_RIGHT, down: pressed(keys.right) });
    evs.push(InputEvent::KeyState { key: NK_KEY_COPY, down: 0 });
    evs.push(InputEvent::KeyState { key: NK_KEY_PASTE, down: 0 });
    evs.push(InputEvent::KeyState { key: NK_KEY_CUT, down: 0 });
    evs.push(InputEvent::KeyState { key: NK_KEY_SHIFT, down: 0 });
    proof {
        assert(evs@ =~= old(evs)@ + spec_key_events_plain(*keys));
    }
}

/// Appends the fixed key table for the polled key states.
fn push_key_events(evs: &mut Vec<InputEvent>, keys: &PlatformKeys)
    ensures
        final(evs)@ == old(evs)@ + spec_key_events(*keys),
{
    push_key_events_base(evs, keys);
    if keys.control_left || keys.control_right {
        push_key_events_ctrl(evs, keys);
    } else {
        push_key_events_plain(evs, keys);
    }
    proof {
        assert(evs@ =~= old(evs)@ + spec_key_events(*keys));
    }
}

/// Appends the mouse block: motion, the three real buttons, the
/// synthesized double-click button, and the scroll delta.
fn push_mouse_events(evs: &mut Vec<InputEvent>, s: &ShimState, mouse: &PlatformMouse)
    ensures
        final(evs)@ == old(evs)@ + spec_mouse_events(*s, *mouse),
{
    evs.push(InputEvent::Motion { x: mouse.cursor_x, y: mouse.cursor_y });
    evs.push(
        InputEvent::ButtonState {
            id: NK_BUTTON_LEFT,
            x: mouse.cursor_x,
            y: mouse.cursor_y,
            down: pressed(mouse.left_down),
        },
    );
    evs.push(
        InputEvent::ButtonState {
            id: NK_BUTTON_MIDDLE,
            x: mouse.cursor_x,
            y: mouse.cursor_y,
            down: pressed(mouse.middle_down),
        },
    );
    evs.push(
        InputEvent::ButtonState {
            id: NK_BUTTON_RIGHT,
            x: mouse.cursor_x,
            y: mouse.cursor_y,
            down: pressed(mouse.right_down),
        },
    );
    evs.push(
        InputEvent::ButtonState {
            id: NK_BUTTON_DOUBLE,
            x: s.double_click_pos.x,
            y: s.double_click_pos.y,
            down: s.is_double_click_down,
        },
    );
    evs.push(InputEvent::Scroll { x: s.scroll.x, y: s.scroll.y });
    proof {
        assert(evs@ =~= old(evs)@ + spec_mouse_events(*s, *mouse));
    }
}

/// Double-click detection: after a left-button press at `t0` and a
/// second at `t1`, the double-click flag stands exactly when the
/// distance between the two presses lies strictly between the bounds,
/// and is cleared otherwise.
pub proof fn lemma_double_click_detection(
    s: ShimState,
    x0: i32,
    y0: i32,
    t0: u64,
    x1: i32,
    y1: i32,
    t1: u64,
)
    ensures
        spec_after_press(spec_after_press(s, x0, y0, t0), x1, y1, t1).is_double_click_down == 1
            <==> DOUBLE_CLICK_LO_US < t1 - t0 < DOUBLE_CLICK_HI_US,
        !(DOUBLE_CLICK_LO_US < t1 - t0 < DOUBLE_CLICK_HI_US) ==> spec_after_press(
            spec_after_press(s, x0, y0, t0),
            x1,
            y1,
            t1,
        ).is_double_click_down == 0,
{
}

} // verus!
