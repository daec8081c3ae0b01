//! The quad batch: one record per quad and the flat vertex and index arrays
//! that describe every quad as two triangles.

use vstd::prelude::*;

use crate::geometry::{Color, Extent, Point, Vertex, offset, offset_fits};
use crate::physics::{cells_to_pixels, span};

verus! {

/// The most quads a batch holds: every vertex number must fit in a `u16` index.
pub const MAX_QUADS: usize = 16384;

/// What the batch keeps of one quad.
#[derive(Clone, Copy, Debug, PartialEq, Eq, Structural)]
pub struct QuadInfo {
    pub pos: Point,
    pub extent: Extent,
    pub color: Color,
}

/// Corner `k` of quad `q` in a batch of cells of `cell` pixels, in the fixed
/// order `(x, y)`, `(x + w, y)`, `(x, y + h)`, `(x + w, y + h)`.
pub open spec fn corner(q: QuadInfo, cell: u16, k: int) -> Vertex {
    let left = q.pos.x as int;
    let right = q.pos.x + span(cell, q.extent.w);
    let bottom = q.pos.y as int;
    let top = q.pos.y + span(cell, q.extent.h);
    let x = if k == 1 || k == 3 { right } else { left };
    let y = if k == 2 || k == 3 { top } else { bottom };
    Vertex { x: x as i64, y: y as i64, color: q.color }
}

/// The vertex array of a batch: four corners per quad, quad `i` at `[4i, 4i + 4)`.
pub open spec fn batch_vertices(quads: Seq<QuadInfo>, cell: u16) -> Seq<Vertex> {
    Seq::new(4 * quads.len(), |j: int| corner(quads[j / 4], cell, j % 4))
}

/// The offsets of the two counter-clockwise triangles `0 1 2` and `2 1 3`.
pub open spec fn triangle_corner(k: int) -> int {
    if k == 0 {
        0
    } else if k == 1 || k == 4 {
        1
    } else if k == 2 || k == 3 {
        2
    } else {
        3
    }
}

/// The index array of a batch of `n` quads: quad `i` at `[6i, 6i + 6)`.
pub open spec fn batch_indices(n: nat) -> Seq<u16> {
    Seq::new(6 * n, |j: int| (4 * (j / 6) + triangle_corner(j % 6)) as u16)
}

/// The quads after quad `slot` has moved to `pos`.
pub open spec fn place_quad(quads: Seq<QuadInfo>, slot: int, pos: Point) -> Seq<QuadInfo> {
    quads.update(slot, QuadInfo { pos, ..quads[slot] })
}

/// The quads after quad `slot` has moved by `delta`.
pub open spec fn translate_quad(quads: Seq<QuadInfo>, slot: int, delta: Point) -> Seq<QuadInfo> {
    quads.update(slot, QuadInfo { pos: offset(quads[slot].pos, delta), ..quads[slot] })
}

/// A snapshot of the batch for upload: its arrays and how many indices to draw.
pub struct Buffers {
    pub vertices: Vec<Vertex>,
    pub indices: Vec<u16>,
    pub num_of_indices: u32,
}

/// The batch. Quad slots are handed out in order from zero and never change.
pub struct Renderer {
    quads: Vec<QuadInfo>,
    quad_size: u16,
    current_quad_index: usize,
    vertices: Vec<Vertex>,
    indices: Vec<u16>,
}

impl Renderer {
    /// The quads in slot order.
    pub closed spec fn quads(&self) -> Seq<QuadInfo> {
        self.quads@
    }

    /// The edge of one cell in pixels.
    pub closed spec fn cell_size(&self) -> u16 {
        self.quad_size
    }

    /// The arrays agree with the quad records and the slot counter.
    pub closed spec fn wf(&self) -> bool {
        &&& self.current_quad_index == self.quads@.len()
        &&& self.quads@.len() <= MAX_QUADS
        &&& self.vertices@ == batch_vertices(self.quads@, self.quad_size)
        &&& self.indices@ == batch_indices(self.quads@.len())
    }

    /// An empty batch whose cells are `size` pixels on a side; the size never
    /// changes afterwards.
    pub fn new(size: u16) -> (r: Renderer)
        requires
            size >= 1,
        ensures
            r.wf(),
            r.quads() == Seq::<QuadInfo>::empty(),
            r.cell_size() == size,
    {
        let r = Renderer {
            quads: Vec::new(),
            quad_size: size,
            current_quad_index: 0,
            vertices: Vec::new(),
            indices: Vec::new(),
        };
        proof {
            assert(r.vertices@ =~= batch_vertices(r.quads@, size));
            assert(r.indices@ =~= batch_indices(0));
        }
        r
    }
}

/// Computes corner `k` of quad `q`.
fn corner_vertex(q: QuadInfo, cell: u16, k: u8) -> (r: Vertex)
    requires
        k < 4,
    ensures
        r == corner(q, cell, k as int),
{
    let w = cells_to_pixels(cell, q.extent.w);
    let h = cells_to_pixels(cell, q.extent.h);
    let x = if k == 1 || k == 3 { q.pos.x as i64 + w } else { q.pos.x as i64 };
    let y = if k == 2 || k == 3 { q.pos.y as i64 + h } else { q.pos.y as i64 };
    Vertex { x, y, color: q.color }
}

impl Renderer {
    /// Rewrites the four vertices of quad `slot` from the record `q` and
    /// stores `q` in that slot.
    fn write_quad(&mut self, slot: usize, q: QuadInfo)
        requires
            old(self).wf(),
            slot < old(self).quads().len(),
        ensures
            final(self).wf(),
            final(self).quads() == old(self).quads().update(slot as int, q),
            final(self).cell_size() == old(self).cell_size(),
    {
        let cell = self.quad_size;
        let base = 4 * slot;
        self.vertices.set(base, corner_vertex(q, cell, 0));
        self.vertices.set(base + 1, corner_vertex(q, cell, 1));
        self.vertices.set(base + 2, corner_vertex(q, cell, 2));
        self.vertices.set(base + 3, corner_vertex(q, cell, 3));
        self.quads.set(slot, q);
        proof {
            assert(self.vertices@ =~= batch_vertices(self.quads@, cell));
        }
    }

    /// Appends a quad of `length` cells with its lower-left corner at
    /// `position`, and returns its slot: the number of quads before it.
    pub fn create_block(&mut self, position: Point, length: Extent, color: Color) -> (r: usize)
        requires
            old(self).wf(),
            old(self).quads().len() < MAX_QUADS,
            length.w >= 1,
            length.h >= 1,
        ensures
            final(self).wf(),
            r == old(self).quads().len(),
            final(self).quads() == old(self).quads().push(
                (QuadInfo { pos: position, extent: length, color }),
            ),
            final(self).cell_size() == old(self).cell_size(),
    {
        let q = QuadInfo { pos: position, extent: length, color };
        let cell = self.quad_size;
        let index = self.current_quad_index;
        self.quads.push(q);
        self.current_quad_index = index + 1;
        self.vertices.push(corner_vertex(q, cell, 0));
        self.vertices.push(corner_vertex(q, cell, 1));
        self.vertices.push(corner_vertex(q, cell, 2));
        self.vertices.push(corner_vertex(q, cell, 3));
        let first = (4 * index) as u16;
        self.indices.push(first);
        self.indices.push(first + 1);
        self.indices.push(first + 2);
        self.indices.push(first + 2);
        self.indices.push(first + 1);
        self.indices.push(first + 3);
        proof {
            assert(self.vertices@ =~= batch_vertices(self.quads@, cell));
            assert(self.indices@ =~= batch_indices(self.quads@.len()));
        }
        index
    }

    /// Appends a quad of one cell with its lower-left corner at `position`,
    /// and returns its slot.
    pub fn create_quad(&mut self, position: Point, color: Color) -> (r: usize)
        requires
            old(self).wf(),
            old(self).quads().len() < MAX_QUADS,
        ensures
            final(self).wf(),
            r == old(self).quads().len(),
            final(self).quads() == old(self).quads().push(
                (QuadInfo { pos: position, extent: Extent { w: 1, h: 1 }, color }),
            ),
            final(self).cell_size() == old(self).cell_size(),
    {
        self.create_block(position, Extent { w: 1, h: 1 }, color)
    }

    /// Moves quad `index` by `delta_position` and rewrites its vertices in place.
    pub fn update_quad_data(&mut self, index: usize, delta_position: Point)
        requires
            old(self).wf(),
            index < old(self).quads().len(),
            offset_fits(old(self).quads()[index as int].pos, delta_position),
        ensures
            final(self).wf(),
            final(self).quads() == translate_quad(old(self).quads(), index as int, delta_position),
            final(self).cell_size() == old(self).cell_size(),
    {
        let q = self.quads[index];
        let pos = Point { x: q.pos.x + delta_position.x, y: q.pos.y + delta_position.y };
        self.write_quad(index, QuadInfo { pos, ..q });
    }

    /// Puts quad `index` at `new_position` and rewrites its vertices in place.
    pub fn change_quad_data(&mut self, index: usize, new_position: Point)
        requires
            old(self).wf(),
            index < old(self).quads().len(),
        ensures
            final(self).wf(),
            final(self).quads() == place_quad(old(self).quads(), index as int, new_position),
            final(self).cell_size() == old(self).cell_size(),
    {
        let q = self.quads[index];
        self.write_quad(index, QuadInfo { pos: new_position, ..q });
    }
}

impl Renderer {
    /// A snapshot of the batch: copies of both arrays and `6 × quads` indices to draw.
    pub fn collect_buffers(&self) -> (r: Buffers)
        requires
            self.wf(),
        ensures
            r.vertices@ == batch_vertices(self.quads(), self.cell_size()),
            r.indices@ == batch_indices(self.quads().len()),
            r.num_of_indices == 6 * self.quads().len(),
    {
        let mut vertices: Vec<Vertex> = Vec::new();
        let mut i: usize = 0;
        while i < self.vertices.len()
            invariant
                i <= self.vertices@.len(),
                vertices@ == self.vertices@.subrange(0, i as int),
            decreases self.vertices@.len() - i,
        {
            vertices.push(self.vertices[i]);
            i = i + 1;
            proof {
                assert(vertices@ =~= self.vertices@.subrange(0, i as int));
            }
        }
        let mut indices: Vec<u16> = Vec::new();
        let mut j: usize = 0;
        while j < self.indices.len()
            invariant
                j <= self.indices@.len(),
                indices@ == self.indices@.subrange(0, j as int),
            decreases self.indices@.len() - j,
        {
            indices.push(self.indices[j]);
            j = j + 1;
            proof {
                assert(indices@ =~= self.indices@.subrange(0, j as int));
            }
        }
        proof {
            assert(vertices@ =~= self.vertices@);
            assert(indices@ =~= self.indices@);
        }
        Buffers { vertices, indices, num_of_indices: (6 * self.current_quad_index) as u32 }
    }

    /// The number of quads in the batch.
    pub fn quad_count(&self) -> (r: usize)
        requires
            self.wf(),
        ensures
            r == self.quads().len(),
    {
        self.current_quad_index
    }

    /// The edge of one cell in pixels.
    pub fn quad_size(&self) -> (r: u16)
        ensures
            r == self.cell_size(),
    {
        self.quad_size
    }

    /// The record of quad `index`.
    pub fn quad(&self, index: usize) -> (r: QuadInfo)
        requires
            index < self.quads().len(),
        ensures
            r == self.quads()[index as int],
    {
        self.quads[index]
    }
}

/// Every quad of a batch is drawn by its own four vertices and six indices:
/// the arrays hold four and six entries per quad, quad `i`'s vertices at
/// `[4i, 4i + 4)` are the corners of `[x, x + w] × [y, y + h]` in the fixed
/// order, and its indices at `[6i, 6i + 6)` are `4i + (0 1 2 2 1 3)`.
pub proof fn lemma_batch_geometry(quads: Seq<QuadInfo>, cell: u16, i: int)
    requires
        0 <= i < quads.len(),
        quads.len() <= MAX_QUADS,
    ensures
        batch_vertices(quads, cell).len() == 4 * quads.len(),
        batch_indices(quads.len()).len() == 6 * quads.len(),
        ({
            let q = quads[i];
            let v = batch_vertices(quads, cell);
            let right = q.pos.x + span(cell, q.extent.w);
            let top = q.pos.y + span(cell, q.extent.h);
            &&& v[4 * i] == Vertex { x: q.pos.x as i64, y: q.pos.y as i64, color: q.color }
            &&& v[4 * i + 1] == Vertex { x: right as i64, y: q.pos.y as i64, color: q.color }
            &&& v[4 * i + 2] == Vertex { x: q.pos.x as i64, y: top as i64, color: q.color }
            &&& v[4 * i + 3] == Vertex { x: right as i64, y: top as i64, color: q.color }
        }),
        ({
            let n = batch_indices(quads.len());
            &&& n[6 * i] == 4 * i
            &&& n[6 * i + 1] == 4 * i + 1
            &&& n[6 * i + 2] == 4 * i + 2
            &&& n[6 * i + 3] == 4 * i + 2
            &&& n[6 * i + 4] == 4 * i + 1
            &&& n[6 * i + 5] == 4 * i + 3
        }),
{
}

/// Moving a quad by `delta` leaves the batch as putting it at its old position
/// plus `delta` does: the same records, hence the same vertices.
pub proof fn lemma_translate_is_placement(quads: Seq<QuadInfo>, cell: u16, slot: int, delta: Point)
    requires
        0 <= slot < quads.len(),
        offset_fits(quads[slot].pos, delta),
    ensures
        translate_quad(quads, slot, delta) == place_quad(
            quads,
            slot,
            offset(quads[slot].pos, delta),
        ),
        batch_vertices(translate_quad(quads, slot, delta), cell) == batch_vertices(
            place_quad(quads, slot, offset(quads[slot].pos, delta)),
            cell,
        ),
{
}

/// Slots only grow and keep what they address. Two creations after `n` quads
/// get the slots `n` and `n + 1`, each holding the quad it was made with, and
/// leave the earlier slots as they were. Moving one quad changes only its
/// position, and no other slot.
pub proof fn lemma_slots_stable(quads: Seq<QuadInfo>, a: QuadInfo, b: QuadInfo, slot: int, pos: Point)
    requires
        0 <= slot < quads.len(),
    ensures
        quads.len() < quads.push(a).len(),
        quads.push(a).push(b)[quads.len() as int] == a,
        quads.push(a).push(b)[quads.len() + 1int] == b,
        forall|i: int| 0 <= i < quads.len() ==> #[trigger] quads.push(a).push(b)[i] == quads[i],
        forall|i: int|
            0 <= i < quads.len() && i != slot ==> #[trigger] place_quad(quads, slot, pos)[i]
                == quads[i],
        place_quad(quads, slot, pos)[slot].extent == quads[slot].extent,
        place_quad(quads, slot, pos)[slot].color == quads[slot].color,
{
}

} // verus!
