use nuke::input::NK_BUTTON_DOUBLE;
use nuke::input::NK_BUTTON_LEFT;
use nuke::input::NK_KEY_COPY;
use nuke::input::NK_KEY_DEL;
use nuke::input::NK_KEY_LEFT;
use nuke::input::NK_KEY_TEXT_WORD_LEFT;
use nuke::shim::InputEvent;
use nuke::shim::PlatformKeys;
use nuke::shim::PlatformMouse;
use nuke::shim::ShimState;
use nuke::shim::pressed;

fn no_keys() -> PlatformKeys {
    PlatformKeys {
        delete: false,
        enter: false,
        tab: false,
        backspace: false,
        up: false,
        down: false,
        left: false,
        right: false,
        home: false,
        end: false,
        shift_left: false,
        shift_right: false,
        control_left: false,
        control_right: false,
        key_c: false,
        key_v: false,
        key_x: false,
        key_z: false,
        key_r: false,
        key_b: false,
        key_e: false,
    }
}

fn idle_mouse() -> PlatformMouse {
    PlatformMouse {
        cursor_x: 0,
        cursor_y: 0,
        left_down: false,
        middle_down: false,
        right_down: false,
    }
}

#[test]
fn pressed_maps_bool() {
    assert_eq!(pressed(true), 1);
    assert_eq!(pressed(false), 0);
}

#[test]
fn double_click_bounds_are_strict() {
    // at exactly the lower bound: too fast
    let mut s = ShimState::new();
    s.on_mouse_button(true, true, 0, 0, 1_000_000);
    s.on_mouse_button(true, true, 0, 0, 1_020_000);
    assert_eq!(s.is_double_click_down, 0);
    // one past the lower bound: detected
    let mut s = ShimState::new();
    s.on_mouse_button(true, true, 1, 2, 1_000_000);
    s.on_mouse_button(true, true, 3, 4, 1_020_001);
    assert_eq!(s.is_double_click_down, 1);
    assert_eq!(s.double_click_pos.x, 3);
    assert_eq!(s.double_click_pos.y, 4);
    // one short of the upper bound: detected
    let mut s = ShimState::new();
    s.on_mouse_button(true, true, 0, 0, 1_000_000);
    s.on_mouse_button(true, true, 0, 0, 1_199_999);
    assert_eq!(s.is_double_click_down, 1);
    // at exactly the upper bound: too slow
    let mut s = ShimState::new();
    s.on_mouse_button(true, true, 0, 0, 1_000_000);
    s.on_mouse_button(true, true, 0, 0, 1_200_000);
    assert_eq!(s.is_double_click_down, 0);
}

#[test]
fn release_clears_double_click() {
    let mut s = ShimState::new();
    s.on_mouse_button(true, true, 0, 0, 1_000_000);
    s.on_mouse_button(true, true, 5, 6, 1_100_000);
    assert_eq!(s.is_double_click_down, 1);
    s.on_mouse_button(true, false, 5, 6, 1_150_000);
    assert_eq!(s.is_double_click_down, 0);
    // the stored position persists past the release
    assert_eq!(s.double_click_pos.x, 5);
}

#[test]
fn other_buttons_do_not_track() {
    let mut s = ShimState::new();
    s.on_mouse_button(false, true, 0, 0, 1_000_000);
    s.on_mouse_button(false, true, 0, 0, 1_100_000);
    assert_eq!(s.is_double_click_down, 0);
    assert_eq!(s.last_button_click, 0);
}

#[test]
fn disqualifying_press_clears_flag() {
    let mut s = ShimState::new();
    s.on_mouse_button(true, true, 0, 0, 1_000_000);
    s.on_mouse_button(true, true, 0, 0, 1_100_000);
    assert_eq!(s.is_double_click_down, 1);
    s.on_mouse_button(true, true, 0, 0, 2_000_000);
    assert_eq!(s.is_double_click_down, 0);
}

#[test]
fn text_accumulates_and_caps() {
    let mut s = ShimState::new();
    for i in 0..300u32 {
        s.on_char(i);
    }
    assert_eq!(s.text.len(), 256);
    assert_eq!(s.text[0], 0);
    assert_eq!(s.text[255], 255);
}

#[test]
fn scroll_accumulates() {
    let mut s = ShimState::new();
    s.on_scroll(2, -3);
    s.on_scroll(1, 1);
    assert_eq!(s.scroll.x, 3);
    assert_eq!(s.scroll.y, -2);
}

#[test]
fn frame_feed_order_and_clearing() {
    let mut s = ShimState::new();
    s.on_char(97);
    s.on_char(98);
    s.on_scroll(4, 5);
    s.on_mouse_button(true, true, 0, 0, 1_000_000);
    s.on_mouse_button(true, true, 7, 8, 1_100_000);
    let keys = PlatformKeys { delete: true, ..no_keys() };
    let mouse = PlatformMouse { cursor_x: 11, cursor_y: 12, left_down: true, ..idle_mouse() };
    let evs = s.frame_events(&keys, &mouse);
    // 2 text + 13 base keys + 6 plain keys + motion + 4 buttons + scroll
    assert_eq!(evs.len(), 27);
    assert_eq!(evs[0], InputEvent::Unicode { cp: 97 });
    assert_eq!(evs[1], InputEvent::Unicode { cp: 98 });
    assert_eq!(evs[2], InputEvent::KeyState { key: NK_KEY_DEL, down: 1 });
    assert_eq!(evs[15], InputEvent::KeyState { key: NK_KEY_LEFT, down: 0 });
    assert_eq!(evs[21], InputEvent::Motion { x: 11, y: 12 });
    assert_eq!(
        evs[22],
        InputEvent::ButtonState { id: NK_BUTTON_LEFT, x: 11, y: 12, down: 1 }
    );
    assert_eq!(
        evs[25],
        InputEvent::ButtonState { id: NK_BUTTON_DOUBLE, x: 7, y: 8, down: 1 }
    );
    assert_eq!(evs[26], InputEvent::Scroll { x: 4, y: 5 });
    // the accumulators are cleared, double-click tracking persists
    assert_eq!(s.text.len(), 0);
    assert_eq!(s.scroll.x, 0);
    assert_eq!(s.scroll.y, 0);
    assert_eq!(s.is_double_click_down, 1);
    let evs2 = s.frame_events(&keys, &mouse);
    assert_eq!(evs2.len(), 25);
}

#[test]
fn control_switches_key_block() {
    let mut s = ShimState::new();
    let keys = PlatformKeys { control_left: true, left: true, key_c: true, ..no_keys() };
    let mouse = idle_mouse();
    let evs = s.frame_events(&keys, &mouse);
    // 13 base keys + 9 control keys + motion + 4 buttons + scroll
    assert_eq!(evs.len(), 28);
    assert_eq!(evs[13], InputEvent::KeyState { key: NK_KEY_COPY, down: 1 });
    assert_eq!(evs[18], InputEvent::KeyState { key: NK_KEY_TEXT_WORD_LEFT, down: 1 });
    // without control, the same physical keys feed the plain block
    let plain = PlatformKeys { left: true, key_c: true, ..no_keys() };
    let evs2 = s.frame_events(&plain, &mouse);
    assert_eq!(evs2.len(), 25);
    assert_eq!(evs2[13], InputEvent::KeyState { key: NK_KEY_LEFT, down: 1 });
    assert_eq!(evs2[15], InputEvent::KeyState { key: NK_KEY_COPY, down: 0 });
}
