//! Core logic of an immediate-mode GUI backend: the input snapshot and its
//! query functions, the per-frame input shim (key table, text and scroll
//! accumulators, double-click detection), the packed vertex layout, the
//! fixed-capacity vertex/element buffers, and the draw-command walk that
//! turns clip rectangles into scissor rectangles.
//!
//! Window, GPU and font-atlas handling live outside this crate; everything
//! here works on plain values and is verified.

use vstd::prelude::*;

pub mod buffers;
pub mod input;
pub mod math;
pub mod offset_to;
pub mod render;
pub mod shim;
pub mod vertex;

pub use input::Input;
pub use input::Key;
pub use input::Keyboard;
pub use input::Mouse;
pub use input::MouseButton;
pub use input::nk_input_any_mouse_click_in_rect;
pub use input::nk_input_has_mouse_click;
pub use input::nk_input_has_mouse_click_down_in_rect;
pub use input::nk_input_has_mouse_click_in_rect;
pub use input::nk_input_is_key_down;
pub use input::nk_input_is_key_pressed;
pub use input::nk_input_is_key_released;
pub use input::nk_input_is_mouse_click_in_rect;
pub use input::nk_input_is_mouse_down;
pub use input::nk_input_is_mouse_hovering_rect;
pub use input::nk_input_is_mouse_pressed;
pub use input::nk_input_is_mouse_prev_hovering_rect;
pub use input::nk_input_is_mouse_released;
pub use input::nk_input_mouse_clicked;
pub use math::Point;
pub use math::Rect;
pub use offset_to::BufferPtr;
pub use offset_to::OffsetTo;

verus! {

} // verus!
