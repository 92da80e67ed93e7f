//! The geometry and colour model shared by producers of geometry and the
//! presentation loop.

use vstd::prelude::*;

pub mod device;
pub mod presentation;
pub mod util;

use crate::graphics::presentation::{Fault, LoopState, Presenter, WindowSize};

verus! {

/// The presentation loop for a window that told the given size. A window
/// that did not tell its size cannot be presented to.
pub fn new(size: Option<WindowSize>) -> (r: Result<Presenter, Fault>)
    ensures
        match size {
            Some(size) => r is Ok && r->Ok_0@ == LoopState::initial(size),
            None => r == Err::<Presenter, Fault>(Fault::NoWindowDimensions),
        },
{
    match size {
        Some(size) => Ok(Presenter::new(size)),
        None => Err(Fault::NoWindowDimensions),
    }
}

/// The position of a vertex within the vertex sequence of one frame.
pub type Index = u16;

/// A vertex position in whole pixels, measured from the top-left corner of
/// the drawable area. A two-dimensional vertex lies at depth zero.
#[derive(Debug, Clone, Copy, PartialEq, Eq, Structural)]
pub enum Vertex {
    Xy(i32, i32),
    Xyz(i32, i32, i32),
}

/// A colour with eight bits per channel. A colour without an alpha channel
/// is opaque.
#[derive(Debug, Clone, Copy, PartialEq, Eq, Structural)]
pub enum Colour {
    Rgb(u8, u8, u8),
    Rgba(u8, u8, u8, u8),
}

/// The size of the drawable area in logical pixels, as it is when one frame
/// is produced.
#[derive(Debug, Clone, Copy, PartialEq, Eq, Structural)]
pub struct RuntimeParams {
    pub window_width: u32,
    pub window_height: u32,
}

/// The geometry of one frame: vertices, one colour per vertex, and the
/// indices that join the vertices into triangles.
pub type RenderData = (Vec<Vertex>, Vec<Colour>, Vec<Index>);

/// The mathematical content of a [`RenderData`].
pub type Batch = (Seq<Vertex>, Seq<Colour>, Seq<Index>);

/// A source of geometry. The presentation loop asks it once per frame.
pub trait VertexProducer {
    /// Whether the producer has geometry for a drawable area of this size.
    spec fn ready(&self, params: RuntimeParams) -> bool;

    /// The geometry of one frame, for the drawable area as it is now. It
    /// keeps the invariant of a frame's geometry, which the upload relies
    /// on.
    fn get_data(&mut self, params: RuntimeParams) -> (data: RenderData)
        requires
            old(self).ready(params),
        ensures
            well_formed(data@),
    ;
}

impl Vertex {
    /// The position as three coordinates.
    pub open spec fn coordinates(self) -> (i32, i32, i32) {
        match self {
            Vertex::Xy(x, y) => (x, y, 0i32),
            Vertex::Xyz(x, y, z) => (x, y, z),
        }
    }

    /// The position as three coordinates, a two-dimensional vertex at depth
    /// zero.
    pub fn position(&self) -> (p: (i32, i32, i32))
        ensures
            p == self.coordinates(),
    {
        match *self {
            Vertex::Xy(x, y) => (x, y, 0),
            Vertex::Xyz(x, y, z) => (x, y, z),
        }
    }

    /// One two-dimensional vertex per pair, in order.
    pub fn from_xy(vertices: &[(i32, i32)]) -> (out: Vec<Self>)
        ensures
            out@ == Seq::new(vertices@.len(), |i: int| Vertex::Xy(vertices@[i].0, vertices@[i].1)),
    {
        let mut out: Vec<Self> = Vec::new();
        let mut i: usize = 0;
        while i < vertices.len()
            invariant
                i <= vertices@.len(),
                out@ == Seq::new(i as nat, |k: int| Vertex::Xy(vertices@[k].0, vertices@[k].1)),
            decreases vertices@.len() - i,
        {
            let (x, y) = vertices[i];
            out.push(Vertex::Xy(x, y));
            i += 1;
        }
        out
    }

    /// One three-dimensional vertex per triple, in order.
    pub fn from_xyz(vertices: &[(i32, i32, i32)]) -> (out: Vec<Self>)
        ensures
            out@ == Seq::new(
                vertices@.len(),
                |i: int| Vertex::Xyz(vertices@[i].0, vertices@[i].1, vertices@[i].2),
            ),
    {
        let mut out: Vec<Self> = Vec::new();
        let mut i: usize = 0;
        while i < vertices.len()
            invariant
                i <= vertices@.len(),
                out@ == Seq::new(
                    i as nat,
                    |k: int| Vertex::Xyz(vertices@[k].0, vertices@[k].1, vertices@[k].2),
                ),
            decreases vertices@.len() - i,
        {
            let (x, y, z) = vertices[i];
            out.push(Vertex::Xyz(x, y, z));
            i += 1;
        }
        out
    }
}

impl Colour {
    /// The four channels of the colour, red first and alpha last. A colour
    /// without an alpha channel has full alpha.
    pub open spec fn channels(self) -> (u8, u8, u8, u8) {
        match self {
            Colour::Rgb(r, g, b) => (r, g, b, 255u8),
            Colour::Rgba(r, g, b, a) => (r, g, b, a),
        }
    }

    /// The four channels of the colour, red first and alpha last, each out
    /// of 255.
    pub fn rgba(&self) -> (c: (u8, u8, u8, u8))
        ensures
            c == self.channels(),
    {
        match *self {
            Colour::Rgb(r, g, b) => (r, g, b, 255),
            Colour::Rgba(r, g, b, a) => (r, g, b, a),
        }
    }

    /// The opaque colour with the given channels, each out of 255.
    pub fn rgb8(r: u8, g: u8, b: u8) -> (c: Self)
        ensures
            c == Colour::Rgba(r, g, b, 255),
    {
        Self::Rgba(r, g, b, 255)
    }

    /// The colour with the given channels, each out of 255.
    pub fn rgba8(r: u8, g: u8, b: u8, a: u8) -> (c: Self)
        ensures
            c == Colour::Rgba(r, g, b, a),
    {
        Self::Rgba(r, g, b, a)
    }

    /// One opaque colour per triple, in order.
    pub fn from_rgb(colours: &[(u8, u8, u8)]) -> (out: Vec<Self>)
        ensures
            out@ == Seq::new(
                colours@.len(),
                |i: int| Colour::Rgba(colours@[i].0, colours@[i].1, colours@[i].2, 255),
            ),
    {
        let mut out: Vec<Self> = Vec::new();
        let mut i: usize = 0;
        while i < colours.len()
            invariant
                i <= colours@.len(),
                out@ == Seq::new(
                    i as nat,
                    |k: int| Colour::Rgba(colours@[k].0, colours@[k].1, colours@[k].2, 255),
                ),
            decreases colours@.len() - i,
        {
            let (r, g, b) = colours[i];
            out.push(Colour::Rgba(r, g, b, 255));
            i += 1;
        }
        out
    }

    /// One colour per quadruple, in order.
    pub fn from_rgba(colours: &[(u8, u8, u8, u8)]) -> (out: Vec<Self>)
        ensures
            out@ == Seq::new(
                colours@.len(),
                |i: int| Colour::Rgba(colours@[i].0, colours@[i].1, colours@[i].2, colours@[i].3),
            ),
    {
        let mut out: Vec<Self> = Vec::new();
        let mut i: usize = 0;
        while i < colours.len()
            invariant
                i <= colours@.len(),
                out@ == Seq::new(
                    i as nat,
                    |k: int| Colour::Rgba(colours@[k].0, colours@[k].1, colours@[k].2, colours@[k].3),
                ),
            decreases colours@.len() - i,
        {
            let (r, g, b, a) = colours[i];
            out.push(Colour::Rgba(r, g, b, a));
            i += 1;
        }
        out
    }

    pub fn red() -> (c: Self)
        ensures
            c == Colour::Rgba(255, 0, 0, 255),
    {
        Colour::Rgba(255, 0, 0, 255)
    }

    pub fn green() -> (c: Self)
        ensures
            c == Colour::Rgba(0, 255, 0, 255),
    {
        Colour::Rgba(0, 255, 0, 255)
    }

    pub fn blue() -> (c: Self)
        ensures
            c == Colour::Rgba(0, 0, 255, 255),
    {
        Colour::Rgba(0, 0, 255, 255)
    }

    pub fn black() -> (c: Self)
        ensures
            c == Colour::Rgba(0, 0, 0, 255),
    {
        Colour::Rgba(0, 0, 0, 255)
    }

    pub fn white() -> (c: Self)
        ensures
            c == Colour::Rgba(255, 255, 255, 255),
    {
        Colour::Rgba(255, 255, 255, 255)
    }
}

/// Whether a batch keeps the invariant of a frame's geometry: one colour per
/// vertex, and every index names a vertex of the batch.
pub open spec fn well_formed(data: Batch) -> bool {
    &&& data.0.len() == data.1.len()
    &&& forall|i: int| 0 <= i < data.2.len() ==> (#[trigger] data.2[i]) < data.0.len()
}

/// The batch without geometry.
pub open spec fn empty_batch() -> Batch {
    (Seq::<Vertex>::empty(), Seq::<Colour>::empty(), Seq::<Index>::empty())
}

/// The indices `indices`, each moved up by `base`.
pub open spec fn rebased(indices: Seq<Index>, base: int) -> Seq<Index> {
    Seq::new(indices.len(), |i: int| (indices[i] + base) as Index)
}

/// Whether every index of `indices`, moved up by `base`, is still an
/// [`Index`].
pub open spec fn rebasable(indices: Seq<Index>, base: int) -> bool {
    forall|i: int| 0 <= i < indices.len() ==> (#[trigger] indices[i]) + base <= Index::MAX
}

/// The batch that draws `first` and then `second` in one call: the vertices
/// and colours of both, and the indices of `second` moved up by the number
/// of vertices that precede them.
pub open spec fn joined(first: Batch, second: Batch) -> Batch {
    (first.0 + second.0, first.1 + second.1, first.2 + rebased(second.2, first.0.len() as int))
}

/// The batch that results from pushing `parts`, in order, onto an empty
/// builder.
pub open spec fn joined_all(parts: Seq<Batch>) -> Batch
    decreases parts.len(),
{
    if parts.len() == 0 {
        empty_batch()
    } else {
        joined(joined_all(parts.drop_last()), parts.last())
    }
}

/// The number of vertices in all of `parts` together.
pub open spec fn vertex_total(parts: Seq<Batch>) -> nat
    decreases parts.len(),
{
    if parts.len() == 0 {
        0
    } else {
        vertex_total(parts.drop_last()) + parts.last().0.len()
    }
}

/// The indices of a well-formed batch can be moved up by any number of
/// vertices that leaves all the vertices within the reach of an [`Index`].
pub proof fn lemma_rebasable(second: Batch, base: nat)
    requires
        well_formed(second),
        base + second.0.len() <= Index::MAX + 1,
    ensures
        rebasable(second.2, base as int),
{
}

/// Joining two well-formed batches gives a well-formed batch, provided that
/// the indices of the second can be moved up by the vertices of the first.
pub proof fn lemma_joined_well_formed(first: Batch, second: Batch)
    requires
        well_formed(first),
        well_formed(second),
        rebasable(second.2, first.0.len() as int),
    ensures
        well_formed(joined(first, second)),
{
    let base = first.0.len() as int;
    let all = joined(first, second);
    assert forall|i: int| 0 <= i < all.2.len() implies (#[trigger] all.2[i]) < all.0.len() by {
        if i >= first.2.len() {
            let k = i - first.2.len();
            assert(second.2[k] < second.0.len());
            assert(all.2[i] == rebased(second.2, base)[k]);
        }
    }
}

/// One more push extends the sequence of pushes by one part.
pub proof fn lemma_joined_all_push(parts: Seq<Batch>, next: Batch)
    ensures
        joined_all(parts.push(next)) == joined(joined_all(parts), next),
        vertex_total(parts.push(next)) == vertex_total(parts) + next.0.len(),
{
    assert(parts.push(next).drop_last() == parts);
}

/// Whether `parts` can be pushed, in order, onto an empty builder: each
/// brings one colour per vertex, and its indices can be moved up by the
/// vertices of the parts before it.
pub open spec fn pushable(parts: Seq<Batch>) -> bool {
    forall|k: int|
        0 <= k < parts.len() ==> {
            &&& (#[trigger] parts[k]).0.len() == parts[k].1.len()
            &&& rebasable(parts[k].2, joined_all(parts.take(k)).0.len() as int)
        }
}

/// Whatever is pushed, the built batch holds as many vertices as all the
/// pushes together, and, where every push brought one colour per vertex, as
/// many colours.
pub proof fn lemma_joined_all_counts(parts: Seq<Batch>)
    ensures
        joined_all(parts).0.len() == vertex_total(parts),
        (forall|k: int| 0 <= k < parts.len() ==> (#[trigger] parts[k]).0.len() == parts[k].1.len())
            ==> joined_all(parts).1.len() == vertex_total(parts),
    decreases parts.len(),
{
    if parts.len() > 0 {
        let front = parts.drop_last();
        lemma_joined_all_counts(front);
        assert forall|k: int| 0 <= k < front.len() implies front[k] == parts[k] by {}
        assert(parts.last() == parts[parts.len() - 1]);
    }
}

/// Any sequence of well-formed batches whose vertices can all be named by an
/// [`Index`] can be pushed, and builds a well-formed batch: every index is
/// below the total number of vertices, and there is one colour per vertex.
pub proof fn lemma_joined_all_well_formed(parts: Seq<Batch>)
    requires
        forall|k: int| 0 <= k < parts.len() ==> well_formed(#[trigger] parts[k]),
        vertex_total(parts) <= Index::MAX + 1,
    ensures
        pushable(parts),
        well_formed(joined_all(parts)),
        joined_all(parts).0.len() == vertex_total(parts),
        joined_all(parts).1.len() == vertex_total(parts),
    decreases parts.len(),
{
    lemma_joined_all_counts(parts);
    if parts.len() > 0 {
        let front = parts.drop_last();
        let last = parts.last();
        assert forall|k: int| 0 <= k < front.len() implies well_formed(#[trigger] front[k]) by {
            assert(front[k] == parts[k]);
        }
        assert(well_formed(parts[parts.len() - 1]));
        lemma_joined_all_well_formed(front);
        lemma_rebasable(last, joined_all(front).0.len());
        lemma_joined_well_formed(joined_all(front), last);
        assert forall|k: int| 0 <= k < parts.len() implies rebasable(
            (#[trigger] parts[k]).2,
            joined_all(parts.take(k)).0.len() as int,
        ) by {
            if k < front.len() {
                assert(parts.take(k) == front.take(k));
                assert(parts[k] == front[k]);
            } else {
                assert(parts.take(k) == front);
            }
        }
    }
}

} // verus!
