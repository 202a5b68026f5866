//! The fixed-capacity vertex and element buffers.
//!
//! Both buffers are allocated once and fully rewritten every frame
//! (stream-draw semantics): an upload replaces the contents, it never
//! appends. Capacity is a hard bound: converted data past it is silently
//! dropped, whole vertices and whole indices at a time — by the GUI
//! library's contract there is no error path and no backpressure.

use vstd::prelude::*;

use crate::vertex::VERTEX_SIZE;
use crate::vertex::Vertex;
use crate::vertex::push_vertex_bytes;
use crate::vertex::spec_vertex_bytes;

verus! {

/// Capacity of the vertex byte buffer.
pub const MAX_VERTEX_BUFFER: usize = 512 * 1024;

/// Capacity of the element (index) byte buffer.
pub const MAX_ELEMENT_BUFFER: usize = 128 * 1024;

/// Size in bytes of one index: the GPU reads 16-bit indices.
pub const ELEMENT_SIZE: usize = 2;

/// How many whole vertices the vertex buffer holds.
pub open spec fn vertex_capacity() -> nat {
    MAX_VERTEX_BUFFER as nat / VERTEX_SIZE as nat
}

/// How many indices the element buffer holds.
pub open spec fn element_capacity() -> nat {
    MAX_ELEMENT_BUFFER as nat / ELEMENT_SIZE as nat
}

/// The two bytes of an index, least significant first.
pub open spec fn le16(x: u16) -> Seq<u8> {
    seq![(x % 256) as u8, (x / 256) as u8]
}

/// The byte stream of a vertex sequence: each vertex packed in order.
pub open spec fn vertex_stream(vs: Seq<Vertex>) -> Seq<u8>
    decreases vs.len(),
{
    if vs.len() == 0 {
        Seq::empty()
    } else {
        vertex_stream(vs.drop_last()) + spec_vertex_bytes(vs.last())
    }
}

/// The byte stream of an index sequence: each index in two bytes.
pub open spec fn element_stream(es: Seq<u16>) -> Seq<u8>
    decreases es.len(),
{
    if es.len() == 0 {
        Seq::empty()
    } else {
        element_stream(es.drop_last()) + le16(es.last())
    }
}

/// A vertex stream takes `VERTEX_SIZE` bytes per vertex.
pub proof fn lemma_vertex_stream_len(vs: Seq<Vertex>)
    ensures
        vertex_stream(vs).len() == VERTEX_SIZE * vs.len(),
    decreases vs.len(),
{
    if vs.len() > 0 {
        lemma_vertex_stream_len(vs.drop_last());
    }
}

/// An element stream takes `ELEMENT_SIZE` bytes per index.
pub proof fn lemma_element_stream_len(es: Seq<u16>)
    ensures
        element_stream(es).len() == ELEMENT_SIZE * es.len(),
    decreases es.len(),
{
    if es.len() > 0 {
        lemma_element_stream_len(es.drop_last());
    }
}

/// What the vertex buffer holds after an upload of `vs`: the stream of
/// the first vertices that fit, whole vertices only.
pub open spec fn spec_vertex_buffer(vs: Seq<Vertex>) -> Seq<u8> {
    if vs.len() <= vertex_capacity() {
        vertex_stream(vs)
    } else {
        vertex_stream(vs.take(vertex_capacity() as int))
    }
}

/// What the element buffer holds after an upload of `es`: the stream of
/// the first indices that fit.
pub open spec fn spec_element_buffer(es: Seq<u16>) -> Seq<u8> {
    if es.len() <= element_capacity() {
        element_stream(es)
    } else {
        element_stream(es.take(element_capacity() as int))
    }
}

/// A buffer state holds an upload of `(vs, es)` when its contents are
/// exactly the clipped streams of that data.
pub open spec fn uploaded(b: FrameBuffers, vs: Seq<Vertex>, es: Seq<u16>) -> bool {
    b.vertices@ == spec_vertex_buffer(vs) && b.elements@ == spec_element_buffer(es)
}

/// The per-frame vertex and element byte buffers.
#[derive(Debug)]
pub struct FrameBuffers {
    pub vertices: Vec<u8>,
    pub elements: Vec<u8>,
}

impl FrameBuffers {
    /// Fresh, empty buffers.
    pub fn new() -> (b: FrameBuffers)
        ensures
            b.vertices@.len() == 0,
            b.elements@.len() == 0,
    {
        FrameBuffers { vertices: Vec::new(), elements: Vec::new() }
    }

    /// Rewrites both buffers with the converted frame data. The result
    /// depends on the data alone, never on what the buffers held before;
    /// data past either capacity is dropped, whole vertices and whole
    /// indices at a time.
    pub fn upload(&mut self, verts: &Vec<Vertex>, idxs: &Vec<u16>)
        ensures
            uploaded(*final(self), verts@, idxs@),
            final(self).vertices@.len() <= MAX_VERTEX_BUFFER,
            final(self).elements@.len() <= MAX_ELEMENT_BUFFER,
    {
        self.vertices.clear();
        self.elements.clear();
        let vcap: usize = MAX_VERTEX_BUFFER / VERTEX_SIZE;
        let n: usize = if verts.len() <= vcap {
            verts.len()
        } else {
            vcap
        };
        let mut i: usize = 0;
        while i < n
            invariant
                i <= n <= verts@.len(),
                n <= vertex_capacity(),
                self.vertices@ == vertex_stream(verts@.take(i as int)),
                self.elements@.len() == 0,
            decreases n - i,
        {
            push_vertex_bytes(&mut self.vertices, &verts[i]);
            proof {
                assert(verts@.take(i + 1).drop_last() =~= verts@.take(i as int));
            }
            i = i + 1;
        }
        proof {
            if verts@.len() <= vertex_capacity() {
                assert(verts@.take(n as int) =~= verts@);
            }
            lemma_vertex_stream_len(verts@.take(n as int));
        }
        let ecap: usize = MAX_ELEMENT_BUFFER / ELEMENT_SIZE;
        let m: usize = if idxs.len() <= ecap {
            idxs.len()
        } else {
            ecap
        };
        let mut j: usize = 0;
        while j < m
            invariant
                j <= m <= idxs@.len(),
                m <= element_capacity(),
                self.elements@ == element_stream(idxs@.take(j as int)),
                self.vertices@ == spec_vertex_buffer(verts@),
                self.vertices@.len() <= MAX_VERTEX_BUFFER,
            decreases m - j,
        {
            let x = idxs[j];
            self.elements.push((x % 256) as u8);
            self.elements.push((x / 256) as u8);
            proof {
                assert(idxs@.take(j + 1).drop_last() =~= idxs@.take(j as int));
                assert(self.elements@ =~= element_stream(idxs@.take(j as int)) + le16(x));
            }
            j = j + 1;
        }
        proof {
            if idxs@.len() <= element_capacity() {
                assert(idxs@.take(m as int) =~= idxs@);
            }
            lemma_element_stream_len(idxs@.take(m as int));
        }
    }
}

/// Buffer re-upload is idempotent per frame: two buffer states holding
/// an upload of the same converted data hold byte-identical contents,
/// whatever either held before its upload.
pub proof fn lemma_reupload_idempotent(
    b1: FrameBuffers,
    b2: FrameBuffers,
    vs: Seq<Vertex>,
    es: Seq<u16>,
)
    requires
        uploaded(b1, vs, es),
        uploaded(b2, vs, es),
    ensures
        b1.vertices@ == b2.vertices@,
        b1.elements@ == b2.elements@,
{
}

} // verus!
