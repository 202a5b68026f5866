use nuke::buffers::FrameBuffers;
use nuke::Rect;
use nuke::render::AntiAliasing;
use nuke::render::CommandList;
use nuke::render::DrawCommand;
use nuke::render::FrameDims;
use nuke::render::TESSELLATION_SEGMENTS;
use nuke::render::convert_config;
use nuke::render::draw_call_list;
use nuke::render::render_frame;
use nuke::render::scissor_rect;
use nuke::vertex::VERTEX_ALIGNMENT;
use nuke::vertex::VERTEX_SIZE;
use nuke::vertex::Vertex;

fn cmd(elem_count: u32, clip: Rect, texture: i32) -> DrawCommand {
    DrawCommand { elem_count, clip_rect: clip, texture }
}

#[test]
fn scissor_formula_flips_y_and_scales() {
    let dims = FrameDims { width: 1200, height: 800, display_width: 1800, display_height: 1200 };
    let clip = Rect { x: 100, y: 50, w: 200, h: 120 };
    let s = scissor_rect(&clip, &dims);
    // (x*sx, (H-(y+h))*sy, w*sx, h*sy) with sx = sy = 3/2
    assert_eq!(s.x, 150);
    assert_eq!(s.y, (800 - 170) * 3 / 2);
    assert_eq!(s.w, 300);
    assert_eq!(s.h, 180);
}

#[test]
fn scissor_components_are_floored() {
    let dims = FrameDims { width: 3, height: 3, display_width: 2, display_height: 2 };
    let clip = Rect { x: -1, y: 0, w: 4, h: 1 };
    let s = scissor_rect(&clip, &dims);
    // -2/3 floors to -1, not toward zero
    assert_eq!(s.x, -1);
    // (3-(0+1))*2/3 = 4/3 floors to 1
    assert_eq!(s.y, 1);
    // 8/3 floors to 2
    assert_eq!(s.w, 2);
    assert_eq!(s.h, 0);
}

#[test]
fn draw_calls_skip_zero_counts_and_accumulate_offsets() {
    let dims = FrameDims { width: 100, height: 100, display_width: 100, display_height: 100 };
    let clip = Rect { x: 0, y: 0, w: 100, h: 100 };
    let mut list = CommandList::new();
    list.push(cmd(6, clip, 1));
    list.push(cmd(0, clip, 2));
    list.push(cmd(9, clip, 3));
    list.push(cmd(0, clip, 4));
    list.push(cmd(3, clip, 5));
    let calls = draw_call_list(&list, &dims);
    assert_eq!(calls.len(), 3);
    assert_eq!(calls[0].texture, 1);
    assert_eq!(calls[0].elem_count, 6);
    assert_eq!(calls[0].index_offset, 0);
    assert_eq!(calls[1].texture, 3);
    assert_eq!(calls[1].index_offset, 6);
    assert_eq!(calls[2].texture, 5);
    assert_eq!(calls[2].index_offset, 15);
}

#[test]
fn empty_and_all_zero_lists_draw_nothing() {
    let dims = FrameDims { width: 10, height: 10, display_width: 10, display_height: 10 };
    let list = CommandList::new();
    assert_eq!(draw_call_list(&list, &dims).len(), 0);
    let mut zeros = CommandList::new();
    zeros.push(cmd(0, Rect { x: 0, y: 0, w: 1, h: 1 }, 1));
    zeros.push(cmd(0, Rect { x: 0, y: 0, w: 1, h: 1 }, 2));
    assert_eq!(draw_call_list(&zeros, &dims).len(), 0);
}

#[test]
fn convert_configuration_is_fixed() {
    let c = convert_config(AntiAliasing::On);
    assert_eq!(c.vertex_size, VERTEX_SIZE);
    assert_eq!(c.vertex_alignment, VERTEX_ALIGNMENT);
    assert_eq!(c.circle_segment_count, TESSELLATION_SEGMENTS);
    assert_eq!(c.curve_segment_count, 22);
    assert_eq!(c.arc_segment_count, 22);
    assert_eq!(c.shape_aa, AntiAliasing::On);
    assert_eq!(c.line_aa, AntiAliasing::On);
    assert_eq!(c.vertex_layout.len(), 4);
    let off = convert_config(AntiAliasing::Off);
    assert_eq!(off.shape_aa, AntiAliasing::Off);
    assert_eq!(off.line_aa, AntiAliasing::Off);
}

#[test]
fn cursor_walks_single_pass() {
    let mut list = CommandList::new();
    let clip = Rect { x: 0, y: 0, w: 1, h: 1 };
    list.push(cmd(1, clip, 10));
    list.push(cmd(2, clip, 20));
    let mut cur = list.begin();
    assert_eq!(cur.next(&list).unwrap().texture, 10);
    assert_eq!(cur.next(&list).unwrap().texture, 20);
    assert!(cur.next(&list).is_none());
    // clearing the accumulator invalidates a cursor begun before it
    let mut cur2 = list.begin();
    assert_eq!(cur2.next(&list).unwrap().texture, 10);
    list.clear();
    assert!(cur2.next(&list).is_none());
}

#[test]
fn full_window_button_scissor_at_two_scales() {
    // a single button command covering the whole 1200x800 logical window
    let button = cmd(6, Rect { x: 0, y: 0, w: 1200, h: 800 }, 42);
    let verts = vec![
        Vertex { position: [0, 0], uv: [0, 0], col: [255, 0, 0, 255] };
        4
    ];
    let idxs: Vec<u16> = vec![0, 1, 2, 2, 3, 0];

    let mut list = CommandList::new();
    list.push(button);
    let mut bufs = FrameBuffers::new();
    let one_to_one = FrameDims { width: 1200, height: 800, display_width: 1200, display_height: 800 };
    let calls = render_frame(&mut bufs, &verts, &idxs, &mut list, &one_to_one);
    assert_eq!(calls.len(), 1);
    assert_eq!(calls[0].scissor.x, 0);
    assert_eq!(calls[0].scissor.y, 0);
    assert_eq!(calls[0].scissor.w, 1200);
    assert_eq!(calls[0].scissor.h, 800);
    assert_eq!(calls[0].texture, 42);
    assert_eq!(calls[0].index_offset, 0);
    // the command list is consumed
    assert_eq!(list.len(), 0);

    let mut list = CommandList::new();
    list.push(button);
    let doubled = FrameDims { width: 1200, height: 800, display_width: 2400, display_height: 1600 };
    let calls = render_frame(&mut bufs, &verts, &idxs, &mut list, &doubled);
    assert_eq!(calls.len(), 1);
    assert_eq!(calls[0].scissor.x, 0);
    assert_eq!(calls[0].scissor.y, 0);
    assert_eq!(calls[0].scissor.w, 2400);
    assert_eq!(calls[0].scissor.h, 1600);
}
