//! Building blocks for producers of geometry: a batch builder and the quad.

use vstd::prelude::*;

use crate::graphics::{
    empty_batch, joined, lemma_joined_well_formed, rebasable, rebased, well_formed, Batch, Colour,
    Index, RenderData, Vertex,
};

verus! {

/// Merges draw calls that were indexed independently into one batch that
/// draws them all in one call.
pub struct RenderStack {
    verts: Vec<Vertex>,
    cols: Vec<Colour>,
    indices: Vec<Index>,
    base: usize,
}

impl View for RenderStack {
    type V = Batch;

    closed spec fn view(&self) -> Batch {
        (self.verts@, self.cols@, self.indices@)
    }
}

impl RenderStack {
    /// The number of vertices by which the indices of the next draw call
    /// are moved up.
    pub closed spec fn base(&self) -> nat {
        self.base as nat
    }

    /// The builder's invariant: every vertex has its colour, and the base
    /// counts the vertices.
    pub open spec fn wf(&self) -> bool {
        &&& self@.0.len() == self@.1.len()
        &&& self.base() == self@.0.len()
    }

    /// The builder that holds no geometry.
    pub fn new() -> (stack: Self)
        ensures
            stack.wf(),
            stack@ == empty_batch(),
    {
        Self { verts: Vec::new(), cols: Vec::new(), indices: Vec::new(), base: 0 }
    }

    /// Whether `data` can be pushed: it brings one colour per vertex, and
    /// each of its indices, moved up by the vertices that the builder holds,
    /// is still an [`Index`].
    pub open spec fn takes(&self, data: Batch) -> bool {
        &&& data.0.len() == data.1.len()
        &&& rebasable(data.2, self@.0.len() as int)
    }

    /// Whether `data` can be pushed.
    pub fn accepts(&self, data: &RenderData) -> (ok: bool)
        requires
            self.wf(),
        ensures
            ok == self.takes(data@),
    {
        if data.0.len() != data.1.len() {
            return false;
        }
        let mut i: usize = 0;
        while i < data.2.len()
            invariant
                i <= data.2@.len(),
                self.base == self@.0.len(),
                forall|k: int| 0 <= k < i ==> (#[trigger] data.2@[k]) + self.base <= Index::MAX,
            decreases data.2@.len() - i,
        {
            if self.base > 0xffff || data.2[i] > 0xffff - self.base as Index {
                return false;
            }
            i += 1;
        }
        true
    }

    /// Appends one draw call. Its vertices and colours are appended as they
    /// are; its indices are moved up by the number of vertices that the
    /// builder held before. A well-formed draw call leaves a well-formed
    /// batch well formed.
    pub fn push(&mut self, data: RenderData)
        requires
            old(self).wf(),
            old(self).takes(data@),
        ensures
            final(self).wf(),
            final(self)@ == joined(old(self)@, data@),
            well_formed(old(self)@) && well_formed(data@) ==> well_formed(final(self)@),
    {
        proof {
            if well_formed(self@) && well_formed(data@) {
                lemma_joined_well_formed(self@, data@);
            }
        }
        let (mut verts, mut cols, indices) = data;
        let mut i: usize = 0;
        while i < indices.len()
            invariant
                i <= indices@.len(),
                self.base == old(self).base,
                self.verts == old(self).verts,
                self.cols == old(self).cols,
                rebasable(indices@, self.base as int),
                self.indices@ == old(self).indices@ + rebased(indices@, self.base as int).take(
                    i as int,
                ),
            decreases indices@.len() - i,
        {
            let index: Index = indices[i];
            self.indices.push(index + self.base as Index);
            i += 1;
        }
        assert(rebased(indices@, self.base as int).take(i as int) == rebased(
            indices@,
            self.base as int,
        ));
        self.verts.append(&mut verts);
        self.cols.append(&mut cols);
        self.base = self.verts.len();
    }

    /// Ends the building and hands out the merged batch.
    pub fn build(self) -> (data: RenderData)
        ensures
            data@ == self@,
    {
        (self.verts, self.cols, self.indices)
    }
}

/// A point in whole pixels.
#[derive(Debug, Clone, Copy, PartialEq, Eq, Structural)]
pub struct Coord {
    pub x: i16,
    pub y: i16,
}

/// An axis-aligned rectangle of one colour.
#[derive(Debug, Clone, Copy, PartialEq, Eq, Structural)]
pub struct Quad {
    pub top_left: Coord,
    pub width: u16,
    pub height: u16,
    pub colour: Colour,
}

impl Quad {
    /// The four corners: top-left, bottom-left, top-right, bottom-right.
    pub open spec fn corners(self) -> Seq<Vertex> {
        let left = self.top_left.x as int;
        let top = self.top_left.y as int;
        let right = left + self.width;
        let bottom = top + self.height;
        seq![
            Vertex::Xy(left as i32, top as i32),
            Vertex::Xy(left as i32, bottom as i32),
            Vertex::Xy(right as i32, top as i32),
            Vertex::Xy(right as i32, bottom as i32),
        ]
    }

    /// The two triangles that cover the quad, over [`Quad::corners`]. They
    /// share the diagonal from the bottom-left to the top-right corner.
    pub open spec fn triangles() -> Seq<Index> {
        seq![0u16, 1u16, 2u16, 2u16, 3u16, 1u16]
    }

    /// The quad as a draw call of its own.
    pub open spec fn batch(self) -> Batch {
        (self.corners(), Seq::new(4, |i: int| self.colour), Self::triangles())
    }

    /// The quad as a draw call of its own: four vertices of the quad's
    /// colour and two triangles.
    pub fn render(&self) -> (data: RenderData)
        ensures
            data@ == self.batch(),
            well_formed(data@),
    {
        let left: i32 = self.top_left.x as i32;
        let top: i32 = self.top_left.y as i32;
        let right: i32 = left + self.width as i32;
        let bottom: i32 = top + self.height as i32;
        let vertices = Vertex::from_xy(&[(left, top), (left, bottom), (right, top), (right, bottom)]);
        let cols = vec![self.colour, self.colour, self.colour, self.colour];
        let indices = quad_indices(0);
        (vertices, cols, indices)
    }
}

/// The two triangles of a quad whose four corners stand one after the other
/// in a vertex sequence, the first of them at `first`: the indices of
/// [`Quad::triangles`], moved up by `first`.
pub fn quad_indices(first: Index) -> (out: Vec<Index>)
    requires
        first <= Index::MAX - 3,
    ensures
        out@ == seq![
            first,
            (first + 1) as Index,
            (first + 2) as Index,
            (first + 2) as Index,
            (first + 3) as Index,
            (first + 1) as Index,
        ],
        out@ == rebased(Quad::triangles(), first as int),
{
    let out: Vec<Index> = vec![first, first + 1, first + 2, first + 2, first + 3, first + 1];
    assert(out@ =~= rebased(Quad::triangles(), first as int));
    out
}

} // verus!
