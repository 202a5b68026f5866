//! The per-frame draw pipeline.
//!
//! Each frame the GUI library converts its widget tree into flat vertex
//! and index data plus a list of draw commands; each command carries an
//! element count, a clip rectangle in logical pixels, and a texture
//! handle. The backend walks that list head to tail and, for every
//! command with a nonzero element count, issues one indexed draw call:
//! it binds the command's texture, turns the clip rectangle into a
//! scissor rectangle in framebuffer pixels (flipping the y axis, since
//! clip rectangles hang from the top-left while scissors grow from the
//! bottom-left), and advances the running index offset by the command's
//! element count. Commands with zero elements are skipped entirely.

use vstd::arithmetic::div_mod::lemma_div_nonincreasing;
use vstd::arithmetic::div_mod::lemma_fundamental_div_mod;
use vstd::arithmetic::div_mod::lemma_fundamental_div_mod_converse;
use vstd::arithmetic::div_mod::lemma_mod_bound;
use vstd::prelude::*;

use crate::buffers::FrameBuffers;
use crate::buffers::uploaded;
use crate::math::Rect;
use crate::vertex::VERTEX_ALIGNMENT;
use crate::vertex::VERTEX_SIZE;
use crate::vertex::Vertex;
use crate::vertex::VertexLayoutElement;
use crate::vertex::spec_vertex_layout;
use crate::vertex::vertex_layout;

verus! {

/// How many segments tessellate a circle, curve or arc in the convert
/// step.
pub const TESSELLATION_SEGMENTS: u32 = 22;

/// Whether the convert step anti-aliases shapes or lines.
#[derive(Clone, Copy, PartialEq, Eq, Structural, Debug)]
pub enum AntiAliasing {
    Off,
    On,
}

/// The configuration handed to the convert step: the packed vertex
/// layout with its stride and alignment, the fixed tessellation segment
/// counts, and the anti-aliasing modes for shapes and lines.
#[derive(Debug)]
pub struct ConvertConfig {
    pub vertex_layout: Vec<VertexLayoutElement>,
    pub vertex_size: usize,
    pub vertex_alignment: usize,
    pub circle_segment_count: u32,
    pub curve_segment_count: u32,
    pub arc_segment_count: u32,
    pub shape_aa: AntiAliasing,
    pub line_aa: AntiAliasing,
}

/// Builds the convert configuration for one frame: the layout and its
/// measures are the packed vertex contract, every segment count is the
/// fixed tessellation constant, and both anti-aliasing modes follow the
/// caller's choice.
pub fn convert_config(aa: AntiAliasing) -> (c: ConvertConfig)
    ensures
        c.vertex_layout@ == spec_vertex_layout(),
        c.vertex_size == VERTEX_SIZE,
        c.vertex_alignment == VERTEX_ALIGNMENT,
        c.circle_segment_count == TESSELLATION_SEGMENTS,
        c.curve_segment_count == TESSELLATION_SEGMENTS,
        c.arc_segment_count == TESSELLATION_SEGMENTS,
        c.shape_aa == aa,
        c.line_aa == aa,
{
    ConvertConfig {
        vertex_layout: vertex_layout(),
        vertex_size: VERTEX_SIZE,
        vertex_alignment: VERTEX_ALIGNMENT,
        circle_segment_count: TESSELLATION_SEGMENTS,
        curve_segment_count: TESSELLATION_SEGMENTS,
        arc_segment_count: TESSELLATION_SEGMENTS,
        shape_aa: aa,
        line_aa: aa,
    }
}

/// The frame's window geometry: logical size and framebuffer size. On a
/// HiDPI display the framebuffer is larger than the logical window; the
/// per-axis ratio is the frame scale applied to clip rectangles.
#[derive(Clone, Copy, PartialEq, Eq, Structural, Debug)]
pub struct FrameDims {
    pub width: i32,
    pub height: i32,
    pub display_width: i32,
    pub display_height: i32,
}

impl FrameDims {
    /// Logical sizes are positive; they divide the scale ratios.
    pub open spec fn wf(self) -> bool {
        self.width > 0 && self.height > 0
    }
}

/// One externally produced draw command, read-only to the renderer.
#[derive(Clone, Copy, PartialEq, Eq, Structural, Debug)]
pub struct DrawCommand {
    /// How many indices this command consumes from the element buffer.
    pub elem_count: u32,
    /// Clip rectangle in logical pixels, top-left origin.
    pub clip_rect: Rect,
    /// The texture handle to bind for this command.
    pub texture: i32,
}

/// A scissor rectangle in framebuffer pixels, bottom-left origin.
#[derive(Clone, Copy, PartialEq, Eq, Structural, Debug)]
pub struct Scissor {
    pub x: i64,
    pub y: i64,
    pub w: i64,
    pub h: i64,
}

/// One draw call of the frame: texture, scissor, and which slice of the
/// element buffer it reads.
#[derive(Clone, Copy, PartialEq, Eq, Structural, Debug)]
pub struct DrawCall {
    pub texture: i32,
    pub scissor: Scissor,
    pub elem_count: u32,
    /// Index-buffer offset this call starts at: the sum of the element
    /// counts of the drawn commands before it.
    pub index_offset: u64,
}

/// The scissor rectangle for clip rectangle `clip` under the frame's
/// scale: `(x*sx, (H-(y+h))*sy, w*sx, h*sy)` with `sx`, `sy` the
/// framebuffer-to-logical ratios and `H` the logical height, each
/// component floored to an integer.
pub open spec fn spec_scissor(clip: Rect, dims: FrameDims) -> Scissor {
    Scissor {
        x: ((clip.x * dims.display_width) / (dims.width as int)) as i64,
        y: (((dims.height - (clip.y + clip.h)) * dims.display_height) / (
        dims.height as int)) as i64,
        w: ((clip.w * dims.display_width) / (dims.width as int)) as i64,
        h: ((clip.h * dims.display_height) / (dims.height as int)) as i64,
    }
}

/// The y component of the scissor arithmetic stays within 64 bits; the
/// other components cannot leave it.
pub open spec fn scissor_y_fits(clip: Rect, dims: FrameDims) -> bool {
    i64::MIN < (dims.height - (clip.y + clip.h)) * dims.display_height <= i64::MAX
}

/// The product of two 32-bit factors stays well within 64 bits.
proof fn lemma_i32_prod_bounded(a: int, b: int)
    by (nonlinear_arith)
    requires
        -0x8000_0000 <= a <= 0x7fff_ffff,
        -0x8000_0000 <= b <= 0x7fff_ffff,
    ensures
        -0x4000_0000_0000_0000 <= a * b <= 0x4000_0000_0000_0000,
{
}

/// Floor division by a positive divisor, on 64-bit operands.
fn floor_div_i64(a: i64, d: i64) -> (q: i64)
    requires
        0 < d,
        i64::MIN < a,
    ensures
        q == a as int / d as int,
{
    if a >= 0 {
        proof {
            lemma_div_nonincreasing(a as int, d as int);
        }
        let q: u64 = (a as u64) / (d as u64);
        q as i64
    } else {
        let m: u64 = (-a) as u64;
        let du: u64 = d as u64;
        let qm: u64 = m / du;
        let rm: u64 = m % du;
        proof {
            let mi = m as int;
            let di = d as int;
            lemma_div_nonincreasing(mi, di);
            lemma_mod_bound(mi, di);
            lemma_fundamental_div_mod(mi, di);
            if rm == 0 {
                assert((-(qm as int)) * di == -(di * (qm as int))) by (nonlinear_arith);
                lemma_fundamental_div_mod_converse(a as int, di, -(qm as int), 0);
            } else {
                assert((-(qm as int) - 1) * di == -(di * (qm as int)) - di) by (nonlinear_arith);
                lemma_fundamental_div_mod_converse(a as int, di, -(qm as int) - 1, di - rm);
            }
        }
        if rm == 0 {
            -(qm as i64)
        } else {
            -(qm as i64) - 1
        }
    }
}

/// Computes the scissor rectangle for one clip rectangle: each component
/// is the clip component scaled by the per-axis framebuffer ratio and
/// floored, with the y axis flipped against the logical height.
pub fn scissor_rect(clip: &Rect, dims: &FrameDims) -> (s: Scissor)
    requires
        dims.wf(),
        scissor_y_fits(*clip, *dims),
    ensures
        s == spec_scissor(*clip, *dims),
        s.x == (clip.x * dims.display_width) / (dims.width as int),
        s.y == ((dims.height - (clip.y + clip.h)) * dims.display_height) / (dims.height as int),
        s.w == (clip.w * dims.display_width) / (dims.width as int),
        s.h == (clip.h * dims.display_height) / (dims.height as int),
{
    proof {
        lemma_i32_prod_bounded(clip.x as int, dims.display_width as int);
        lemma_i32_prod_bounded(clip.w as int, dims.display_width as int);
        lemma_i32_prod_bounded(clip.h as int, dims.display_height as int);
    }
    let x = floor_div_i64(clip.x as i64 * dims.display_width as i64, dims.width as i64);
    let flipped: i64 = dims.height as i64 - (clip.y as i64 + clip.h as i64);
    let y = floor_div_i64(flipped * dims.display_height as i64, dims.height as i64);
    let w = floor_div_i64(clip.w as i64 * dims.display_width as i64, dims.width as i64);
    let h = floor_div_i64(clip.h as i64 * dims.display_height as i64, dims.height as i64);
    Scissor { x, y, w, h }
}

/// The frame's command list, filled by the convert step and cleared
/// once the frame's draw calls have been issued.
#[derive(Debug)]
pub struct CommandList {
    pub cmds: Vec<DrawCommand>,
}

impl CommandList {
    /// An empty command list.
    pub fn new() -> (list: CommandList)
        ensures
            list.cmds@.len() == 0,
    {
        CommandList { cmds: Vec::new() }
    }

    /// Appends one command, as the convert step does while it batches
    /// the widget tree.
    pub fn push(&mut self, c: DrawCommand)
        ensures
            final(self).cmds@ == old(self).cmds@.push(c),
    {
        self.cmds.push(c);
    }

    /// How many commands the list holds.
    pub fn len(&self) -> (n: usize)
        ensures
            n == self.cmds@.len(),
    {
        self.cmds.len()
    }

    /// Drops the frame's commands, leaving the list empty for the next
    /// frame; cursors begun on the old contents find nothing further.
    pub fn clear(&mut self)
        ensures
            final(self).cmds@.len() == 0,
    {
        self.cmds.clear();
    }

    /// Begins a single-pass walk over this list.
    pub fn begin(&self) -> (cur: CommandCursor)
        ensures
            cur.index == 0,
    {
        CommandCursor { index: 0 }
    }
}

/// A single-pass cursor over a command list. The list is embedded in a
/// backing store, so the cursor does not own what it walks: each step
/// takes the list it was begun on.
#[derive(Clone, Copy, PartialEq, Eq, Structural, Debug)]
pub struct CommandCursor {
    pub index: usize,
}

impl CommandCursor {
    /// The command under the cursor, stepping past it; `None` once the
    /// list is exhausted (or the accumulator was cleared under the
    /// cursor).
    pub fn next(&mut self, list: &CommandList) -> (c: Option<DrawCommand>)
        ensures
            old(self).index < list.cmds@.len() ==> c == Some(list.cmds@[old(self).index as int])
                && final(self).index == old(self).index + 1,
            old(self).index >= list.cmds@.len() ==> c is None && *final(self) == *old(self),
    {
        if self.index < list.cmds.len() {
            let c = list.cmds[self.index];
            self.index = self.index + 1;
            Some(c)
        } else {
            None
        }
    }
}

/// The sum of the element counts of a command sequence.
pub open spec fn total_elems(cmds: Seq<DrawCommand>) -> int
    decreases cmds.len(),
{
    if cmds.len() == 0 {
        0
    } else {
        total_elems(cmds.drop_last()) + cmds.last().elem_count
    }
}

/// Element sums are nonnegative, and a prefix never sums past the whole.
pub proof fn lemma_total_elems_prefix(cmds: Seq<DrawCommand>, i: int)
    requires
        0 <= i <= cmds.len(),
    ensures
        0 <= total_elems(cmds.take(i)) <= total_elems(cmds),
    decreases cmds.len(),
{
    if cmds.len() == 0 {
        assert(cmds.take(i) =~= cmds);
    } else if i == cmds.len() {
        assert(cmds.take(i) =~= cmds);
        lemma_total_elems_prefix(cmds.drop_last(), cmds.len() - 1);
        assert(cmds.drop_last().take(cmds.len() - 1) =~= cmds.drop_last());
    } else {
        lemma_total_elems_prefix(cmds.drop_last(), i);
        assert(cmds.drop_last().take(i) =~= cmds.take(i));
    }
}

/// The draw call for one drawn command at a given index offset.
pub open spec fn spec_draw_call(c: DrawCommand, dims: FrameDims, offset: int) -> DrawCall {
    DrawCall {
        texture: c.texture,
        scissor: spec_scissor(c.clip_rect, dims),
        elem_count: c.elem_count,
        index_offset: offset as u64,
    }
}

/// The draw calls for a command sequence, walking head to tail from a
/// starting index offset: a command with zero elements produces no call
/// and leaves the offset alone; any other produces one call and
/// advances the offset by its element count.
pub open spec fn spec_draw_calls_from(cmds: Seq<DrawCommand>, dims: FrameDims, offset: int) -> Seq<
    DrawCall,
>
    decreases cmds.len(),
{
    if cmds.len() == 0 {
        Seq::empty()
    } else if cmds.first().elem_count == 0 {
        spec_draw_calls_from(cmds.drop_first(), dims, offset)
    } else {
        seq![spec_draw_call(cmds.first(), dims, offset)] + spec_draw_calls_from(
            cmds.drop_first(),
            dims,
            offset + cmds.first().elem_count,
        )
    }
}

/// The draw calls of a whole frame, from index offset zero.
pub open spec fn spec_draw_calls(cmds: Seq<DrawCommand>, dims: FrameDims) -> Seq<DrawCall> {
    spec_draw_calls_from(cmds, dims, 0)
}

/// How many commands of a sequence carry a nonzero element count.
pub open spec fn count_nonzero(cmds: Seq<DrawCommand>) -> int
    decreases cmds.len(),
{
    if cmds.len() == 0 {
        0
    } else {
        (if cmds.first().elem_count != 0 {
            1int
        } else {
            0int
        }) + count_nonzero(cmds.drop_first())
    }
}

/// One draw call is issued per command with a nonzero element count,
/// whatever offset the walk starts at.
pub proof fn lemma_draw_call_count(cmds: Seq<DrawCommand>, dims: FrameDims, offset: int)
    ensures
        spec_draw_calls_from(cmds, dims, offset).len() == count_nonzero(cmds),
    decreases cmds.len(),
{
    if cmds.len() > 0 {
        if cmds.first().elem_count == 0 {
            lemma_draw_call_count(cmds.drop_first(), dims, offset);
        } else {
            lemma_draw_call_count(cmds.drop_first(), dims, offset + cmds.first().elem_count);
        }
    }
}

/// A command with zero element count produces no draw call and does not
/// advance the index offset.
pub proof fn lemma_zero_count_no_draw(
    c: DrawCommand,
    rest: Seq<DrawCommand>,
    dims: FrameDims,
    offset: int,
)
    requires
        c.elem_count == 0,
    ensures
        spec_draw_calls_from(seq![c] + rest, dims, offset) == spec_draw_calls_from(
            rest,
            dims,
            offset,
        ),
{
    assert((seq![c] + rest).drop_first() =~= rest);
}

/// A command with a nonzero element count produces exactly one draw
/// call and advances the index offset by its element count.
pub proof fn lemma_nonzero_count_draws(
    c: DrawCommand,
    rest: Seq<DrawCommand>,
    dims: FrameDims,
    offset: int,
)
    requires
        c.elem_count != 0,
    ensures
        spec_draw_calls_from(seq![c] + rest, dims, offset) == seq![
            spec_draw_call(c, dims, offset),
        ] + spec_draw_calls_from(rest, dims, offset + c.elem_count),
{
    assert((seq![c] + rest).drop_first() =~= rest);
}

/// Every command's scissor arithmetic stays within 64 bits.
pub open spec fn all_scissors_fit(cmds: Seq<DrawCommand>, dims: FrameDims) -> bool {
    forall|i: int| 0 <= i < cmds.len() ==> scissor_y_fits(#[trigger] cmds[i].clip_rect, dims)
}

/// Walks the command list head to tail and builds the frame's draw
/// calls: one per command with a nonzero element count, each with its
/// texture, its scissor rectangle, and the index offset the drawn
/// commands before it have accumulated.
pub fn draw_call_list(list: &CommandList, dims: &FrameDims) -> (calls: Vec<DrawCall>)
    requires
        dims.wf(),
        all_scissors_fit(list.cmds@, *dims),
        total_elems(list.cmds@) <= u64::MAX,
    ensures
        calls@ == spec_draw_calls(list.cmds@, *dims),
{
    let mut calls: Vec<DrawCall> = Vec::new();
    let mut offset: u64 = 0;
    let mut cur = list.begin();
    proof {
        assert(list.cmds@.skip(0) =~= list.cmds@);
        assert(list.cmds@.take(0) =~= Seq::<DrawCommand>::empty());
    }
    loop
        invariant
            dims.wf(),
            all_scissors_fit(list.cmds@, *dims),
            total_elems(list.cmds@) <= u64::MAX,
            cur.index <= list.cmds@.len(),
            offset == total_elems(list.cmds@.take(cur.index as int)),
            spec_draw_calls(list.cmds@, *dims) == calls@ + spec_draw_calls_from(
                list.cmds@.skip(cur.index as int),
                *dims,
                offset as int,
            ),
        ensures
            calls@ == spec_draw_calls(list.cmds@, *dims),
        decreases list.cmds@.len() - cur.index,
    {
        let ghost i: int = cur.index as int;
        let stepped = cur.next(list);
        match stepped {
            None => {
                proof {
                    assert(list.cmds@.skip(i) =~= Seq::<DrawCommand>::empty());
                    assert(calls@ + Seq::<DrawCall>::empty() =~= calls@);
                }
                break ;
            },
            Some(c) => {
                let ghost calls_prev: Seq<DrawCall> = calls@;
                let ghost offset_prev: int = offset as int;
                proof {
                    assert(list.cmds@.skip(i).drop_first() =~= list.cmds@.skip(i + 1));
                    assert(list.cmds@.take(i + 1).drop_last() =~= list.cmds@.take(i));
                    lemma_total_elems_prefix(list.cmds@, i + 1);
                }
                if c.elem_count != 0 {
                    let s = scissor_rect(&c.clip_rect, dims);
                    calls.push(
                        DrawCall {
                            texture: c.texture,
                            scissor: s,
                            elem_count: c.elem_count,
                            index_offset: offset,
                        },
                    );
                    offset = offset + c.elem_count as u64;
                    proof {
                        let tail = spec_draw_calls_from(
                            list.cmds@.skip(i + 1),
                            *dims,
                            offset_prev + c.elem_count,
                        );
                        assert(calls_prev + (seq![
                            spec_draw_call(c, *dims, offset_prev),
                        ] + tail) =~= calls@ + tail);
                    }
                }
            },
        }
    }
    calls
}

/// One frame's compute path, as the backend runs it between GPU state
/// setup and restore: rewrite the vertex and element buffers with the
/// converted data, walk the command list into draw calls, then clear
/// the list so the next frame starts empty.
pub fn render_frame(
    bufs: &mut FrameBuffers,
    verts: &Vec<Vertex>,
    idxs: &Vec<u16>,
    list: &mut CommandList,
    dims: &FrameDims,
) -> (calls: Vec<DrawCall>)
    requires
        dims.wf(),
        all_scissors_fit(old(list).cmds@, *dims),
        total_elems(old(list).cmds@) <= u64::MAX,
    ensures
        uploaded(*final(bufs), verts@, idxs@),
        calls@ == spec_draw_calls(old(list).cmds@, *dims),
        final(list).cmds@.len() == 0,
{
    bufs.upload(verts, idxs);
    let calls = draw_call_list(list, dims);
    list.clear();
    calls
}

} // verus!
