//! Styled containers that render themselves as quads.

use vstd::prelude::*;

use crate::graphics::util::{Coord, Quad, RenderStack};
use crate::graphics::{
    joined, well_formed, Batch, Colour, RenderData, RuntimeParams, VertexProducer,
};

verus! {

/// The direction in which a container lays out its children.
#[derive(Debug, Clone, Copy, PartialEq, Eq, Structural)]
pub enum Direction {
    Row,
    Column,
}

/// The four-sided pixel offsets of a padding or a margin. Offsets may be
/// negative: a negative margin grows the rectangle it is applied to.
#[derive(Debug, Clone, Copy, PartialEq, Eq, Structural)]
pub struct Border {
    pub top: i16,
    pub right: i16,
    pub bottom: i16,
    pub left: i16,
}

impl Border {
    /// The border with no offset on any side.
    pub fn zero() -> (b: Self)
        ensures
            b == (Border { top: 0, right: 0, bottom: 0, left: 0 }),
    {
        Self::new(0, 0, 0, 0)
    }

    /// The border with the given offsets, in the order of a clock face
    /// starting at noon.
    pub fn new(top: i16, right: i16, bottom: i16, left: i16) -> (b: Self)
        ensures
            b == (Border { top, right, bottom, left }),
    {
        Self { top, right, bottom, left }
    }
}

/// A size as a share of the drawable area: `num` parts out of `den`. The
/// share is exact, and may exceed the whole.
#[derive(Debug, Clone, Copy)]
pub struct Fraction {
    num: u16,
    den: u16,
}

impl Fraction {
    #[verifier::type_invariant]
    spec fn positive_parts(self) -> bool {
        self.den > 0
    }

    /// The number of parts taken.
    pub closed spec fn num(self) -> nat {
        self.num as nat
    }

    /// The number of parts that make the whole; never zero for a fraction
    /// that [`Fraction::new`] or [`Fraction::whole`] made.
    pub closed spec fn den(self) -> nat {
        self.den as nat
    }

    /// The share of `extent` pixels in whole pixels, rounded down, and at
    /// most [`i16::MAX`].
    pub open spec fn scaled(self, extent: u32) -> int {
        let pixels = (self.num() * extent) / (self.den() as int);
        if pixels > i16::MAX {
            i16::MAX as int
        } else {
            pixels
        }
    }

    /// The fraction of `num` parts out of `den`, unless `den` is zero.
    pub fn new(num: u16, den: u16) -> (r: Option<Self>)
        ensures
            den == 0 <==> r is None,
            r matches Some(f) ==> f.num() == num && f.den() == den,
    {
        if den == 0 {
            None
        } else {
            Some(Fraction { num, den })
        }
    }

    /// The whole of the drawable area.
    pub fn whole() -> (f: Self)
        ensures
            f.num() == 1,
            f.den() == 1,
    {
        Fraction { num: 1, den: 1 }
    }

    /// The share of `extent` pixels in whole pixels.
    pub fn of(&self, extent: u32) -> (pixels: i16)
        ensures
            pixels == self.scaled(extent),
            pixels >= 0,
    {
        proof {
            use_type_invariant(self);
            assert(self.num as u64 * extent as u64 <= 0xffff * 0xffff_ffff) by (nonlinear_arith)
                requires
                    self.num <= 0xffff,
                    extent <= 0xffff_ffff,
            ;
        }
        let product: u64 = self.num as u64 * extent as u64;
        let pixels: u64 = product / self.den as u64;
        if pixels > 32767 {
            32767
        } else {
            pixels as i16
        }
    }
}

/// How a node looks and how much room it claims among its siblings.
#[derive(Debug, Clone, Copy, PartialEq, Eq, Structural)]
pub struct Style {
    pub flex: u8,
    pub colour: Colour,
    pub padding: Border,
    pub margin: Border,
    pub border_width: u16,
    pub border_colour: Colour,
}

impl Style {
    /// The style of a node that nothing was said about.
    pub open spec fn plain() -> Style {
        Style {
            flex: 1,
            colour: Colour::Rgba(255, 255, 255, 255),
            padding: Border { top: 0, right: 0, bottom: 0, left: 0 },
            margin: Border { top: 0, right: 0, bottom: 0, left: 0 },
            border_width: 0,
            border_colour: Colour::Rgba(0, 0, 0, 255),
        }
    }

    /// A white fill with a black border of no width, no padding, no margin,
    /// and a flex weight of one.
    pub fn new() -> (style: Self)
        ensures
            style == Style::plain(),
    {
        Self {
            flex: 1,
            colour: Colour::white(),
            padding: Border::zero(),
            margin: Border::zero(),
            border_width: 0,
            border_colour: Colour::black(),
        }
    }
}

/// Placing a node: the layout pass of the node's owner says where the node
/// lies and how large it is.
pub trait SetPosition {
    /// The top-left corner in pixels, left first.
    spec fn top_left(&self) -> (i16, i16);

    /// The width and the height, as shares of the drawable area.
    spec fn w_h(&self) -> (Fraction, Fraction);

    fn set_top_left(&mut self, left: i16, top: i16)
        ensures
            final(self).top_left() == (left, top),
            final(self).w_h() == old(self).w_h(),
    ;

    fn set_w_h(&mut self, w: Fraction, h: Fraction)
        ensures
            final(self).w_h() == (w, h),
            final(self).top_left() == old(self).top_left(),
    ;
}

/// A node of the tree.
pub enum GuiObject {
    Container(Container),
    Component(Component),
}

/// A node that owns other nodes. Its size is a share of the drawable area,
/// so that it follows the window when the window is resized.
pub struct Container {
    pub flex_direction: Direction,
    children: Vec<GuiObject>,
    pub style: Style,
    left: i16,
    top: i16,
    w: Fraction,
    h: Fraction,
}

/// A leaf of the tree.
pub struct Component {
    pub style: Style,
    left: i16,
    top: i16,
    w: Fraction,
    h: Fraction,
}

/// What a [`Container`] holds.
pub struct ContainerView {
    pub flex_direction: Direction,
    /// The nodes that the container owns, in the order in which they were
    /// pushed.
    pub children: Seq<GuiObject>,
    pub style: Style,
    pub left: i16,
    pub top: i16,
    pub w: Fraction,
    pub h: Fraction,
}

/// What a [`Component`] holds.
pub struct ComponentView {
    pub style: Style,
    pub left: i16,
    pub top: i16,
    pub w: Fraction,
    pub h: Fraction,
}

impl View for Container {
    type V = ContainerView;

    closed spec fn view(&self) -> ContainerView {
        ContainerView {
            flex_direction: self.flex_direction,
            children: self.children@,
            style: self.style,
            left: self.left,
            top: self.top,
            w: self.w,
            h: self.h,
        }
    }
}

impl View for Component {
    type V = ComponentView;

    closed spec fn view(&self) -> ComponentView {
        ComponentView { style: self.style, left: self.left, top: self.top, w: self.w, h: self.h }
    }
}

impl ContainerView {
    /// The left edge of the rectangle that the border fills.
    pub open spec fn outer_left(self) -> int {
        self.left + self.style.margin.left
    }

    /// The top edge of the rectangle that the border fills.
    pub open spec fn outer_top(self) -> int {
        self.top + self.style.margin.top
    }

    /// The width of the rectangle that the border fills: the container's
    /// share of the drawable area, less the margin on both sides.
    pub open spec fn outer_width(self, params: RuntimeParams) -> int {
        self.w.scaled(params.window_width) - self.style.margin.right - self.style.margin.left
    }

    /// The height of the rectangle that the border fills.
    pub open spec fn outer_height(self, params: RuntimeParams) -> int {
        self.h.scaled(params.window_height) - self.style.margin.bottom - self.style.margin.top
    }

    /// Whether the container's two rectangles can be told in the
    /// coordinates of a [`Quad`]: corners within [`i16`], sides within
    /// [`u16`], and a border no wider than half of either side.
    pub open spec fn fits(self, params: RuntimeParams) -> bool {
        let border = self.style.border_width;
        &&& i16::MIN <= self.outer_left() && self.outer_left() + border <= i16::MAX
        &&& i16::MIN <= self.outer_top() && self.outer_top() + border <= i16::MAX
        &&& 2 * border <= self.outer_width(params) <= u16::MAX
        &&& 2 * border <= self.outer_height(params) <= u16::MAX
    }

    /// The rectangle inside the margin, in the colour of the border.
    pub open spec fn border_quad(self, params: RuntimeParams) -> Quad {
        Quad {
            top_left: Coord { x: self.outer_left() as i16, y: self.outer_top() as i16 },
            width: self.outer_width(params) as u16,
            height: self.outer_height(params) as u16,
            colour: self.style.border_colour,
        }
    }

    /// The rectangle inside the border, in the fill colour.
    pub open spec fn content_quad(self, params: RuntimeParams) -> Quad {
        let border = self.style.border_width;
        Quad {
            top_left: Coord {
                x: (self.outer_left() + border) as i16,
                y: (self.outer_top() + border) as i16,
            },
            width: (self.outer_width(params) - 2 * border) as u16,
            height: (self.outer_height(params) - 2 * border) as u16,
            colour: self.style.colour,
        }
    }

    /// The container as geometry: the rectangle inside the border, and
    /// after it the rectangle inside the margin.
    pub open spec fn rendered(self, params: RuntimeParams) -> Batch {
        joined(self.content_quad(params).batch(), self.border_quad(params).batch())
    }
}

impl SetPosition for Container {
    open spec fn top_left(&self) -> (i16, i16) {
        (self@.left, self@.top)
    }

    open spec fn w_h(&self) -> (Fraction, Fraction) {
        (self@.w, self@.h)
    }

    fn set_top_left(&mut self, left: i16, top: i16)
        ensures
            final(self)@ == (ContainerView { left, top, ..old(self)@ }),
    {
        self.left = left;
        self.top = top;
    }

    fn set_w_h(&mut self, w: Fraction, h: Fraction)
        ensures
            final(self)@ == (ContainerView { w, h, ..old(self)@ }),
    {
        self.w = w;
        self.h = h;
    }
}

impl Container {
    /// An empty container that fills the drawable area from its top-left
    /// corner, with the plain style, laying out in a row.
    pub fn new() -> (container: Self)
        ensures
            container@.flex_direction == Direction::Row,
            container@.children == Seq::<GuiObject>::empty(),
            container@.style == Style::plain(),
            container@.left == 0,
            container@.top == 0,
            container@.w.num() == 1 && container@.w.den() == 1,
            container@.h.num() == 1 && container@.h.den() == 1,
    {
        Self {
            flex_direction: Direction::Row,
            children: Vec::new(),
            style: Style::new(),
            left: 0,
            top: 0,
            w: Fraction::whole(),
            h: Fraction::whole(),
        }
    }

    /// The container's style.
    pub fn style(&self) -> (style: Style)
        ensures
            style == self@.style,
    {
        self.style
    }

    /// Gives the container another style and leaves the rest as it is.
    pub fn set_style(&mut self, style: Style)
        ensures
            final(self)@ == (ContainerView { style, ..old(self)@ }),
    {
        self.style = style;
    }

    /// The direction in which the container lays out its children.
    pub fn flex_direction(&self) -> (direction: Direction)
        ensures
            direction == self@.flex_direction,
    {
        self.flex_direction
    }

    /// Gives the container another direction and leaves the rest as it is.
    pub fn set_flex_direction(&mut self, direction: Direction)
        ensures
            final(self)@ == (ContainerView { flex_direction: direction, ..old(self)@ }),
    {
        self.flex_direction = direction;
    }

    /// Adds a child after those that the container owns already.
    pub fn push(&mut self, obj: GuiObject)
        ensures
            final(self)@ == (ContainerView {
                children: old(self)@.children.push(obj),
                ..old(self)@
            }),
    {
        self.children.push(obj);
    }

    /// Whether the container can be rendered into a drawable area of this
    /// size.
    pub fn fits_viewport(&self, params: &RuntimeParams) -> (ok: bool)
        ensures
            ok == self@.fits(*params),
    {
        let border: i64 = self.style.border_width as i64;
        let left: i64 = self.left as i64 + self.style.margin.left as i64;
        let top: i64 = self.top as i64 + self.style.margin.top as i64;
        let width: i64 = self.w.of(params.window_width) as i64 - self.style.margin.right as i64
            - self.style.margin.left as i64;
        let height: i64 = self.h.of(params.window_height) as i64 - self.style.margin.bottom as i64
            - self.style.margin.top as i64;
        -32768 <= left && left + border <= 32767 && -32768 <= top && top + border <= 32767 && 2
            * border <= width && width <= 65535 && 2 * border <= height && height <= 65535
    }

    /// The container as geometry: the rectangle inside the border in the
    /// fill colour, and after it the rectangle inside the margin in the
    /// colour of the border. Of two quads at one depth the first drawn shows,
    /// so the border shows where the fill leaves it uncovered.
    pub fn render(&self, params: &RuntimeParams) -> (data: RenderData)
        requires
            self@.fits(*params),
        ensures
            data@ == self@.rendered(*params),
            well_formed(data@),
    {
        let mut stack = RenderStack::new();
        let border: i32 = self.style.border_width as i32;
        let left: i32 = self.left as i32 + self.style.margin.left as i32;
        let top: i32 = self.top as i32 + self.style.margin.top as i32;
        let width: i32 = self.w.of(params.window_width) as i32 - self.style.margin.right as i32
            - self.style.margin.left as i32;
        let height: i32 = self.h.of(params.window_height) as i32 - self.style.margin.bottom as i32
            - self.style.margin.top as i32;
        let border_quad = Quad {
            top_left: Coord { x: left as i16, y: top as i16 },
            width: width as u16,
            height: height as u16,
            colour: self.style.border_colour,
        };
        let content_quad = Quad {
            top_left: Coord { x: (left + border) as i16, y: (top + border) as i16 },
            width: (width - 2 * border) as u16,
            height: (height - 2 * border) as u16,
            colour: self.style.colour,
        };
        let content = content_quad.render();
        let outline = border_quad.render();
        proof {
            assert(joined(stack@, content@) == content@);
        }
        stack.push(content);
        stack.push(outline);
        stack.build()
    }
}

impl Component {
    /// A component that fills the drawable area from its top-left corner,
    /// with the plain style.
    pub fn new() -> (component: Self)
        ensures
            component@.style == Style::plain(),
            component@.left == 0,
            component@.top == 0,
            component@.w.num() == 1 && component@.w.den() == 1,
            component@.h.num() == 1 && component@.h.den() == 1,
    {
        Self { style: Style::new(), left: 0, top: 0, w: Fraction::whole(), h: Fraction::whole() }
    }

    /// The component's style.
    pub fn style(&self) -> (style: Style)
        ensures
            style == self@.style,
    {
        self.style
    }

    /// Gives the component another style and leaves the rest as it is.
    pub fn set_style(&mut self, style: Style)
        ensures
            final(self)@ == (ComponentView { style, ..old(self)@ }),
    {
        self.style = style;
    }
}

impl SetPosition for Component {
    open spec fn top_left(&self) -> (i16, i16) {
        (self@.left, self@.top)
    }

    open spec fn w_h(&self) -> (Fraction, Fraction) {
        (self@.w, self@.h)
    }

    fn set_top_left(&mut self, left: i16, top: i16)
        ensures
            final(self)@ == (ComponentView { left, top, ..old(self)@ }),
    {
        self.left = left;
        self.top = top;
    }

    fn set_w_h(&mut self, w: Fraction, h: Fraction)
        ensures
            final(self)@ == (ComponentView { w, h, ..old(self)@ }),
    {
        self.w = w;
        self.h = h;
    }
}

/// The root of a tree of nodes: a container that fills the drawable area,
/// styled by chained calls, and a source of geometry for the presentation
/// loop.
pub struct Frame {
    frame: Container,
}

impl View for Frame {
    type V = ContainerView;

    closed spec fn view(&self) -> ContainerView {
        self.frame@
    }
}

impl Frame {
    /// The style of the frame, to be changed in place.
    pub fn style(&mut self) -> (style: &mut Style)
        ensures
            *style == old(self)@.style,
            final(self)@ == (ContainerView { style: *final(style), ..old(self)@ }),
    {
        &mut self.frame.style
    }

    /// The frame around a new container.
    pub fn new() -> (frame: Self)
        ensures
            frame@.flex_direction == Direction::Row,
            frame@.children == Seq::<GuiObject>::empty(),
            frame@.style == Style::plain(),
            frame@.left == 0,
            frame@.top == 0,
            frame@.w.num() == 1 && frame@.w.den() == 1,
            frame@.h.num() == 1 && frame@.h.den() == 1,
    {
        Self { frame: Container::new() }
    }

    /// The same frame with the given flex weight.
    pub fn flex(self, flex: u8) -> (frame: Self)
        ensures
            frame@ == (ContainerView { style: Style { flex, ..self@.style }, ..self@ }),
    {
        let mut frame = self;
        frame.frame.style.flex = flex;
        frame
    }

    /// The same frame with the given fill colour.
    pub fn colour(self, col: Colour) -> (frame: Self)
        ensures
            frame@ == (ContainerView { style: Style { colour: col, ..self@.style }, ..self@ }),
    {
        let mut frame = self;
        frame.frame.style.colour = col;
        frame
    }

    /// The same frame with the given padding.
    pub fn padding(self, border: Border) -> (frame: Self)
        ensures
            frame@ == (ContainerView { style: Style { padding: border, ..self@.style }, ..self@ }),
    {
        let mut frame = self;
        frame.frame.style.padding = border;
        frame
    }

    /// The same frame with the given margin.
    pub fn margin(self, border: Border) -> (frame: Self)
        ensures
            frame@ == (ContainerView { style: Style { margin: border, ..self@.style }, ..self@ }),
    {
        let mut frame = self;
        frame.frame.style.margin = border;
        frame
    }

    /// The same frame with a border of the given width in pixels.
    pub fn border_width(self, w: u16) -> (frame: Self)
        ensures
            frame@ == (ContainerView { style: Style { border_width: w, ..self@.style }, ..self@ }),
    {
        let mut frame = self;
        frame.frame.style.border_width = w;
        frame
    }

    /// The same frame with a border of the given colour.
    pub fn border_colour(self, col: Colour) -> (frame: Self)
        ensures
            frame@ == (ContainerView {
                style: Style { border_colour: col, ..self@.style },
                ..self@
            }),
    {
        let mut frame = self;
        frame.frame.style.border_colour = col;
        frame
    }

    /// Whether the frame can be rendered into a drawable area of this size.
    pub fn fits_viewport(&self, params: &RuntimeParams) -> (ok: bool)
        ensures
            ok == self@.fits(*params),
    {
        self.frame.fits_viewport(params)
    }
}

impl VertexProducer for Frame {
    open spec fn ready(&self, params: RuntimeParams) -> bool {
        self@.fits(params)
    }

    /// The frame's container as geometry. The frame stays as it is.
    fn get_data(&mut self, params: RuntimeParams) -> (data: RenderData)
        ensures
            data@ == old(self)@.rendered(params),
            final(self)@ == old(self)@,
    {
        self.frame.render(&params)
    }
}

} // verus!
