//! Glyph meshes: the outline tessellator that builds them once, and their
//! placement into a draw list every frame.
//!
//! A contour is triangulated as a fan around its first point. Every quadratic
//! segment adds one more triangle over its control point whose curve
//! coordinates let the rasterizer decide, per pixel, on which side of the
//! parabola the pixel lies. The consumer accumulates the coverage of all these
//! triangles, so overlapping ones cancel or add up to the filled outline.

use crate::draw_list::{lemma_append_wf, Color, DrawList, Vec2, Vec4, Vert};
use crate::scalar::{Scalar, HALF_BITS, ONE_255TH_BITS, ONE_BITS, ZERO_BITS};
use vstd::prelude::*;

verus! {

/// A glyph's bounding box in font units, y pointing up.
#[derive(Clone, Copy, Debug, PartialEq, Eq, Structural)]
pub struct Rect {
    pub x_min: i16,
    pub y_min: i16,
    pub x_max: i16,
    pub y_max: i16,
}

/// An axis-aligned rectangle in world space, y pointing down.
#[derive(Clone, Copy, Debug, PartialEq, Eq, Structural)]
pub struct Bounds {
    pub left: Scalar,
    pub top: Scalar,
    pub right: Scalar,
    pub bottom: Scalar,
}

impl Bounds {
    /// Whether the two rectangles share a point, borders included. A NaN
    /// anywhere makes the answer false.
    pub open spec fn intersects_spec(self, other: Bounds) -> bool {
        &&& self.left.le_spec(other.right)
        &&& other.left.le_spec(self.right)
        &&& self.top.le_spec(other.bottom)
        &&& other.top.le_spec(self.bottom)
    }

    pub fn intersects(&self, other: &Bounds) -> (hit: bool)
        ensures
            hit == self.intersects_spec(*other),
    {
        self.left.le(other.right) && self.right.ge(other.left) && self.top.le(other.bottom)
            && self.bottom.ge(other.top)
    }
}

/// Whether a glyph whose placed bounding box is `placed_box` is drawn when the
/// camera sees `view`. A glyph without a box (whitespace) is never culled.
pub open spec fn glyph_visible(view: Bounds, placed_box: Option<Bounds>) -> bool {
    match placed_box {
        Some(b) => b.intersects_spec(view),
        None => true,
    }
}

/// The indices `0, 1, .., n - 1`.
pub open spec fn iota(n: nat) -> Seq<u32> {
    Seq::new(n, |i: int| i as u32)
}

/// `indices` moved up by `base`, the number of vertices that precede the
/// glyph's own in the shared buffer.
pub open spec fn rebase(indices: Seq<u32>, base: int) -> Seq<u32> {
    Seq::new(indices.len(), |i: int| (indices[i] + base) as u32)
}

/// The color that marks a triangle as coverage to accumulate: `(0, 0, 1/255, 1)`.
pub open spec fn coverage_tag() -> Color {
    Vec4 {
        x: Scalar { bits: ZERO_BITS },
        y: Scalar { bits: ZERO_BITS },
        z: Scalar { bits: ONE_255TH_BITS },
        w: Scalar { bits: ONE_BITS },
    }
}

/// A vertex at `p` with curve coordinates `(u, v)` given by their patterns.
pub open spec fn curve_vert(p: Vec2, u: u32, v: u32, col: Color) -> Vert {
    Vert { pos: Vec4 { x: p.x, y: p.y, z: Scalar { bits: u }, w: Scalar { bits: v } }, col }
}

/// A triangle with straight edges: curve coordinates `(0, 0)`, `(0, 0)`,
/// `(1, 1)`, which put every pixel of it on the inner side.
pub open spec fn fan_triangle(a: Vec2, b: Vec2, c: Vec2, col: Color) -> Seq<Vert> {
    seq![
        curve_vert(a, ZERO_BITS, ZERO_BITS, col),
        curve_vert(b, ZERO_BITS, ZERO_BITS, col),
        curve_vert(c, ONE_BITS, ONE_BITS, col),
    ]
}

/// A triangle over a quadratic segment from `a` to `c` with control point `b`:
/// curve coordinates `(0, 0)`, `(0.5, 0)`, `(1, 1)`, whose interpolation
/// satisfies `v = u * u` exactly on the curve.
pub open spec fn curve_triangle(a: Vec2, b: Vec2, c: Vec2, col: Color) -> Seq<Vert> {
    seq![
        curve_vert(a, ZERO_BITS, ZERO_BITS, col),
        curve_vert(b, HALF_BITS, ZERO_BITS, col),
        curve_vert(c, ONE_BITS, ONE_BITS, col),
    ]
}

/// A point of the outline brought into render space, where y points down.
pub open spec fn flip(x: Scalar, y: Scalar) -> Vec2 {
    Vec2 { x, y: y.neg_spec() }
}

/// One step of a glyph outline, coordinates in font space (y up).
#[derive(Clone, Copy, Debug, PartialEq, Eq, Structural)]
pub enum OutlineSegment {
    MoveTo { x: Scalar, y: Scalar },
    LineTo { x: Scalar, y: Scalar },
    QuadTo { x1: Scalar, y1: Scalar, x: Scalar, y: Scalar },
    CurveTo { x1: Scalar, y1: Scalar, x2: Scalar, y2: Scalar, x: Scalar, y: Scalar },
    Close,
}

/// Why a glyph could not be built.
#[derive(Clone, Copy, Debug, PartialEq, Eq, Structural)]
pub enum GlyphError {
    /// The outline holds a cubic segment, which this tessellator cannot
    /// render and will not approximate.
    UnsupportedCubic,
}

/// The tessellator's state as mathematics: the contour's first point, the
/// point reached, the number of segments since the contour began, and all
/// vertices emitted so far, three per triangle.
pub struct OutlineState {
    pub first: Vec2,
    pub current: Vec2,
    pub segments: nat,
    pub vertices: Seq<Vert>,
}

impl OutlineState {
    /// The state before any segment.
    pub open spec fn start() -> OutlineState {
        let origin = Vec2 { x: Scalar { bits: ZERO_BITS }, y: Scalar { bits: ZERO_BITS } };
        OutlineState { first: origin, current: origin, segments: 0, vertices: Seq::empty() }
    }

    /// Begins a contour at `(x, -y)`.
    pub open spec fn move_to(self, x: Scalar, y: Scalar) -> OutlineState {
        OutlineState { first: flip(x, y), current: flip(x, y), segments: 0, ..self }
    }

    /// The fan triangle that a segment ending at `p` adds: none for the first
    /// segment of a contour, which has no area to span yet.
    pub open spec fn fan_to(self, p: Vec2) -> Seq<Vert> {
        if self.segments >= 1 {
            fan_triangle(self.first, self.current, p, coverage_tag())
        } else {
            Seq::empty()
        }
    }

    /// A straight segment to `(x, -y)`.
    pub open spec fn line_to(self, x: Scalar, y: Scalar) -> OutlineState {
        OutlineState {
            current: flip(x, y),
            segments: self.segments + 1,
            vertices: self.vertices + self.fan_to(flip(x, y)),
            ..self
        }
    }

    /// A quadratic segment to `(x, -y)` with control point `(x1, -y1)`: the
    /// fan triangle of its chord, then the curve triangle.
    pub open spec fn quad_to(self, x1: Scalar, y1: Scalar, x: Scalar, y: Scalar) -> OutlineState {
        OutlineState {
            current: flip(x, y),
            segments: self.segments + 1,
            vertices: self.vertices + self.fan_to(flip(x, y)) + curve_triangle(
                self.current,
                flip(x1, y1),
                flip(x, y),
                coverage_tag(),
            ),
            ..self
        }
    }

    /// Ends the contour. The closing edge needs no triangle: the fan already
    /// returns to the first point.
    pub open spec fn close(self) -> OutlineState {
        OutlineState { current: self.first, segments: 0, ..self }
    }

    /// The state after `segment`, or `None` for a cubic.
    pub open spec fn step(self, segment: OutlineSegment) -> Option<OutlineState> {
        match segment {
            OutlineSegment::MoveTo { x, y } => Some(self.move_to(x, y)),
            OutlineSegment::LineTo { x, y } => Some(self.line_to(x, y)),
            OutlineSegment::QuadTo { x1, y1, x, y } => Some(self.quad_to(x1, y1, x, y)),
            OutlineSegment::CurveTo { .. } => None,
            OutlineSegment::Close => Some(self.close()),
        }
    }

    /// The state after all of `outline` in order, or `None` if it holds a
    /// cubic.
    pub open spec fn run(self, outline: Seq<OutlineSegment>) -> Option<OutlineState>
        decreases outline.len(),
    {
        if outline.len() == 0 {
            Some(self)
        } else {
            match self.run(outline.drop_last()) {
                Some(s) => s.step(outline.last()),
                None => None,
            }
        }
    }

    /// What the tessellator keeps true of its state: whole triangles only, and
    /// no more segments counted than triangles could account for.
    pub open spec fn wf(self) -> bool {
        &&& self.vertices.len() % 3 == 0
        &&& self.segments <= self.vertices.len() / 3 + 1
    }
}

/// A precomputed glyph mesh with indices that count from zero.
#[derive(Debug)]
pub struct Glyph {
    pub idx_buffer: Vec<u32>,
    pub vtx_buffer: Vec<Vert>,
    pub num_of_elems: usize,
    pub bounding_box: Option<Rect>,
}

impl Glyph {
    /// The invariant of a glyph: three indices per triangle, each naming one
    /// of the glyph's own vertices.
    pub open spec fn wf(&self) -> bool {
        &&& self.idx_buffer@.len() == 3 * self.num_of_elems
        &&& self.vtx_buffer@.len() <= u32::MAX
        &&& forall|j: int|
            0 <= j < self.idx_buffer@.len() ==> (#[trigger] self.idx_buffer@[j])
                < self.vtx_buffer@.len()
    }

    /// Whether the mesh is a plain triangle list: vertex `i` is used by index
    /// `i` and by no other.
    pub open spec fn is_triangle_list(&self) -> bool {
        &&& self.vtx_buffer@.len() == 3 * self.num_of_elems
        &&& self.idx_buffer@ == iota(self.vtx_buffer@.len())
    }

    /// Builds the mesh of `outline`, or fails on its first cubic segment.
    ///
    /// An outline of `n` segments yields at most `2 n` triangles, and their
    /// `6 n` vertices must stay within reach of a `u32` index.
    pub fn new(outline: &[OutlineSegment], bounding_box: Option<Rect>) -> (r: Result<
        Glyph,
        GlyphError,
    >)
        requires
            6 * outline@.len() <= u32::MAX,
        ensures
            match OutlineState::start().run(outline@) {
                Some(s) => r is Ok && r->Ok_0.vtx_buffer@ == s.vertices
                    && r->Ok_0.is_triangle_list() && r->Ok_0.bounding_box == bounding_box
                    && r->Ok_0.wf(),
                None => r == Err::<Glyph, GlyphError>(GlyphError::UnsupportedCubic),
            },
            r is Err <==> exists|i: int|
                0 <= i < outline@.len() && #[trigger] outline@[i] is CurveTo,
    {
        proof {
            lemma_run_fails_iff_cubic(OutlineState::start(), outline@);
        }
        let mut builder = GlyphBuilder::new();
        let n = outline.len();
        let mut i: usize = 0;
        proof {
            assert(outline@.take(0) =~= Seq::<OutlineSegment>::empty());
        }
        while i < n
            invariant
                n == outline@.len(),
                6 * n <= u32::MAX,
                i <= n,
                builder.wf(),
                OutlineState::start().run(outline@.take(i as int)) == Some(builder@),
                builder@.vertices.len() <= 6 * i,
            decreases n - i,
        {
            proof {
                assert(outline@.take(i + 1).drop_last() =~= outline@.take(i as int));
                assert(outline@.take(i + 1).last() == outline@[i as int]);
            }
            match builder.apply(&outline[i]) {
                Ok(()) => {},
                Err(e) => {
                    proof {
                        assert(outline@[i as int] is CurveTo);
                        lemma_run_fails_iff_cubic(OutlineState::start(), outline@);
                    }
                    return Err(e);
                },
            }
            i += 1;
        }
        proof {
            assert(outline@.take(n as int) =~= outline@);
        }
        let mut glyph = builder.build();
        glyph.bounding_box = bounding_box;
        Ok(glyph)
    }

    /// Asks both buffers to make room. The contents do not change.
    pub fn reserve(&mut self, idx_count: usize, vtx_count: usize)
        ensures
            final(self).idx_buffer@ == old(self).idx_buffer@,
            final(self).vtx_buffer@ == old(self).vtx_buffer@,
            final(self).num_of_elems == old(self).num_of_elems,
            final(self).bounding_box == old(self).bounding_box,
    {
        self.idx_buffer.reserve(idx_count);
        self.vtx_buffer.reserve(vtx_count);
    }

    /// Appends one vertex and returns its index.
    pub fn push_vert(&mut self, vert: Vert) -> (idx: u32)
        requires
            old(self).vtx_buffer@.len() < u32::MAX,
        ensures
            idx == old(self).vtx_buffer@.len(),
            final(self).vtx_buffer@ == old(self).vtx_buffer@.push(vert),
            final(self).idx_buffer@ == old(self).idx_buffer@,
            final(self).num_of_elems == old(self).num_of_elems,
            final(self).bounding_box == old(self).bounding_box,
            old(self).wf() ==> final(self).wf(),
    {
        let idx = self.vtx_buffer.len() as u32;
        self.vtx_buffer.push(vert);
        idx
    }

    /// Appends the triangle `(a, b, c)`.
    pub fn push_elem(&mut self, a: u32, b: u32, c: u32)
        requires
            old(self).wf(),
            a < old(self).vtx_buffer@.len(),
            b < old(self).vtx_buffer@.len(),
            c < old(self).vtx_buffer@.len(),
        ensures
            final(self).idx_buffer@ == old(self).idx_buffer@ + seq![a, b, c],
            final(self).vtx_buffer@ == old(self).vtx_buffer@,
            final(self).num_of_elems == old(self).num_of_elems + 1,
            final(self).bounding_box == old(self).bounding_box,
            final(self).wf(),
    {
        self.idx_buffer.push(a);
        self.idx_buffer.push(b);
        self.idx_buffer.push(c);
        proof {
            assert(self.idx_buffer@ =~= old(self).idx_buffer@ + seq![a, b, c]);
            assert(self.idx_buffer.len() <= usize::MAX);
        }
        self.num_of_elems += 1;
    }
}

impl Default for Glyph {
    fn default() -> (glyph: Glyph)
        ensures
            glyph.idx_buffer@ == Seq::<u32>::empty(),
            glyph.vtx_buffer@ == Seq::<Vert>::empty(),
            glyph.num_of_elems == 0,
            glyph.bounding_box is None,
            glyph.wf(),
    {
        Glyph { idx_buffer: Vec::new(), vtx_buffer: Vec::new(), num_of_elems: 0, bounding_box: None }
    }
}

/// An outline can be tessellated if and only if none of its segments is a
/// cubic.
pub proof fn lemma_run_fails_iff_cubic(s: OutlineState, outline: Seq<OutlineSegment>)
    ensures
        s.run(outline) is None <==> exists|i: int|
            0 <= i < outline.len() && #[trigger] outline[i] is CurveTo,
    decreases outline.len(),
{
    if outline.len() > 0 {
        let init = outline.drop_last();
        lemma_run_fails_iff_cubic(s, init);
        if s.run(init) is None {
            let i = choose|i: int| 0 <= i < init.len() && #[trigger] init[i] is CurveTo;
            assert(outline[i] is CurveTo);
        } else if outline.last() is CurveTo {
            assert(outline[outline.len() - 1] is CurveTo);
        } else {
            assert forall|i: int| 0 <= i < outline.len() implies !(#[trigger] outline[i]
                is CurveTo) by {
                if i < init.len() {
                    assert(init[i] == outline[i]);
                }
            }
        }
    }
}

/// Tessellation keeps its state well formed and emits at most two triangles
/// per segment.
pub proof fn lemma_run_wf(s: OutlineState, outline: Seq<OutlineSegment>)
    requires
        s.wf(),
    ensures
        s.run(outline) is Some ==> s.run(outline)->Some_0.wf() && s.run(
            outline,
        )->Some_0.vertices.len() <= s.vertices.len() + 6 * outline.len(),
    decreases outline.len(),
{
    if outline.len() > 0 {
        lemma_run_wf(s, outline.drop_last());
    }
}

/// A contour of one quadratic segment is one curve triangle, and whatever the
/// coordinates of its points, the curve coordinates of its vertices are
/// `(0, 0)`, `(0.5, 0)`, `(1, 1)` in this order.
pub proof fn lemma_single_curve(
    x0: Scalar,
    y0: Scalar,
    x1: Scalar,
    y1: Scalar,
    x: Scalar,
    y: Scalar,
)
    ensures
        ({
            let outline = seq![
                OutlineSegment::MoveTo { x: x0, y: y0 },
                OutlineSegment::QuadTo { x1, y1, x, y },
            ];
            let end = OutlineState::start().run(outline);
            &&& end is Some
            &&& end->Some_0.vertices == curve_triangle(
                flip(x0, y0),
                flip(x1, y1),
                flip(x, y),
                coverage_tag(),
            )
            &&& end->Some_0.vertices.len() == 3
            &&& end->Some_0.vertices[0].pos.z.bits == ZERO_BITS
            &&& end->Some_0.vertices[0].pos.w.bits == ZERO_BITS
            &&& end->Some_0.vertices[1].pos.z.bits == HALF_BITS
            &&& end->Some_0.vertices[1].pos.w.bits == ZERO_BITS
            &&& end->Some_0.vertices[2].pos.z.bits == ONE_BITS
            &&& end->Some_0.vertices[2].pos.w.bits == ONE_BITS
        }),
{
    let m = OutlineSegment::MoveTo { x: x0, y: y0 };
    let q = OutlineSegment::QuadTo { x1, y1, x, y };
    let outline = seq![m, q];
    let start = OutlineState::start();
    assert(outline.drop_last() =~= seq![m]);
    assert(seq![m].drop_last() =~= Seq::<OutlineSegment>::empty());
    assert(start.run(Seq::<OutlineSegment>::empty()) == Some(start));
    assert(start.run(seq![m]) == start.step(m));
    assert(start.run(outline) == start.move_to(x0, y0).step(q));
    let end = start.move_to(x0, y0).quad_to(x1, y1, x, y);
    assert(end.vertices =~= curve_triangle(
        flip(x0, y0),
        flip(x1, y1),
        flip(x, y),
        coverage_tag(),
    ));
}

/// The tessellator: feed it the segments of one glyph, then `build`.
pub struct GlyphBuilder {
    first_point: Vec2,
    current_point: Vec2,
    contour_count: usize,
    glyph: Glyph,
}

impl View for GlyphBuilder {
    type V = OutlineState;

    closed spec fn view(&self) -> OutlineState {
        OutlineState {
            first: self.first_point,
            current: self.current_point,
            segments: self.contour_count as nat,
            vertices: self.glyph.vtx_buffer@,
        }
    }
}

impl GlyphBuilder {
    /// The invariant of the tessellator: its mesh is a triangle list in reach
    /// of `u32` indices, and its state is well formed.
    pub closed spec fn wf(&self) -> bool {
        &&& self.glyph.wf()
        &&& self.glyph.is_triangle_list()
        &&& self.glyph.bounding_box is None
        &&& self@.wf()
    }

    /// A tessellator that has seen nothing.
    pub fn new() -> (builder: GlyphBuilder)
        ensures
            builder@ == OutlineState::start(),
            builder.wf(),
    {
        let builder = GlyphBuilder {
            first_point: Vec2 { x: Scalar::zero(), y: Scalar::zero() },
            current_point: Vec2 { x: Scalar::zero(), y: Scalar::zero() },
            contour_count: 0,
            glyph: Glyph::default(),
        };
        assert(builder.glyph.idx_buffer@ =~= iota(0));
        builder
    }

    fn push_triangle(&mut self, a: Vert, b: Vert, c: Vert)
        requires
            old(self).wf(),
            old(self)@.vertices.len() + 3 <= u32::MAX,
        ensures
            final(self)@ == (OutlineState {
                vertices: old(self)@.vertices + seq![a, b, c],
                ..old(self)@
            }),
            final(self).glyph.wf(),
            final(self).glyph.is_triangle_list(),
            final(self).glyph.bounding_box is None,
            final(self)@.vertices.len() % 3 == 0,
    {
        self.glyph.reserve(3, 3);
        let ia = self.glyph.push_vert(a);
        let ib = self.glyph.push_vert(b);
        let ic = self.glyph.push_vert(c);
        self.glyph.push_elem(ia, ib, ic);
        proof {
            assert(self.glyph.vtx_buffer@ =~= old(self).glyph.vtx_buffer@ + seq![a, b, c]);
            assert(self.glyph.idx_buffer@ =~= iota(self.glyph.vtx_buffer@.len()));
        }
    }

    /// Adds the straight-edged triangle `(a, b, c)` in color `col`.
    pub fn add_triangle(&mut self, a: Vec2, b: Vec2, c: Vec2, col: Color)
        requires
            old(self).wf(),
            old(self)@.vertices.len() + 3 <= u32::MAX,
        ensures
            final(self)@ == (OutlineState {
                vertices: old(self)@.vertices + fan_triangle(a, b, c, col),
                ..old(self)@
            }),
            final(self).wf(),
    {
        let zero = Scalar::zero();
        let one = Scalar::one();
        self.push_triangle(
            Vert { pos: Vec4 { x: a.x, y: a.y, z: zero, w: zero }, col },
            Vert { pos: Vec4 { x: b.x, y: b.y, z: zero, w: zero }, col },
            Vert { pos: Vec4 { x: c.x, y: c.y, z: one, w: one }, col },
        );
    }

    /// Adds the curve triangle of the quadratic segment from `a` to `c` with
    /// control point `b`, in color `col`.
    pub fn add_curve(&mut self, a: Vec2, b: Vec2, c: Vec2, col: Color)
        requires
            old(self).wf(),
            old(self)@.vertices.len() + 3 <= u32::MAX,
        ensures
            final(self)@ == (OutlineState {
                vertices: old(self)@.vertices + curve_triangle(a, b, c, col),
                ..old(self)@
            }),
            final(self).wf(),
    {
        let zero = Scalar::zero();
        let one = Scalar::one();
        self.push_triangle(
            Vert { pos: Vec4 { x: a.x, y: a.y, z: zero, w: zero }, col },
            Vert { pos: Vec4 { x: b.x, y: b.y, z: Scalar::half(), w: zero }, col },
            Vert { pos: Vec4 { x: c.x, y: c.y, z: one, w: one }, col },
        );
    }

    /// Hands over the finished mesh. It has no bounding box yet.
    pub fn build(self) -> (glyph: Glyph)
        requires
            self.wf(),
        ensures
            glyph.vtx_buffer@ == self@.vertices,
            glyph.is_triangle_list(),
            glyph.bounding_box is None,
            glyph.wf(),
    {
        self.glyph
    }

    /// Begins a contour at `(x, y)`.
    pub fn move_to(&mut self, x: Scalar, y: Scalar)
        requires
            old(self).wf(),
        ensures
            final(self)@ == old(self)@.move_to(x, y),
            final(self).wf(),
    {
        self.first_point = Vec2 { x, y: y.neg() };
        self.current_point = self.first_point;
        self.contour_count = 0;
    }

    /// A straight segment to `(x, y)`.
    pub fn line_to(&mut self, x: Scalar, y: Scalar)
        requires
            old(self).wf(),
            old(self)@.vertices.len() + 3 <= u32::MAX,
        ensures
            final(self)@ == old(self)@.line_to(x, y),
            final(self).wf(),
    {
        let new_point = Vec2 { x, y: y.neg() };
        if self.contour_count >= 1 {
            self.add_triangle(self.first_point, self.current_point, new_point, tag());
        }
        self.contour_count += 1;
        self.current_point = new_point;
        proof {
            assert(self@.vertices =~= old(self)@.line_to(x, y).vertices);
        }
    }

    /// A quadratic segment to `(x, y)` with control point `(x1, y1)`.
    pub fn quad_to(&mut self, x1: Scalar, y1: Scalar, x: Scalar, y: Scalar)
        requires
            old(self).wf(),
            old(self)@.vertices.len() + 6 <= u32::MAX,
        ensures
            final(self)@ == old(self)@.quad_to(x1, y1, x, y),
            final(self).wf(),
    {
        let new_point = Vec2 { x, y: y.neg() };
        if self.contour_count >= 1 {
            self.add_triangle(self.first_point, self.current_point, new_point, tag());
        }
        self.add_curve(self.current_point, Vec2 { x: x1, y: y1.neg() }, new_point, tag());
        self.contour_count += 1;
        self.current_point = new_point;
        proof {
            assert(self@.vertices =~= old(self)@.quad_to(x1, y1, x, y).vertices);
        }
    }

    /// A cubic segment: always refused, and the tessellator is left as it was.
    pub fn curve_to(
        &mut self,
        x1: Scalar,
        y1: Scalar,
        x2: Scalar,
        y2: Scalar,
        x: Scalar,
        y: Scalar,
    ) -> (r: Result<(), GlyphError>)
        ensures
            r == Err::<(), GlyphError>(GlyphError::UnsupportedCubic),
            final(self)@ == old(self)@,
            old(self).wf() ==> final(self).wf(),
    {
        Err(GlyphError::UnsupportedCubic)
    }

    /// Ends the contour.
    pub fn close(&mut self)
        requires
            old(self).wf(),
        ensures
            final(self)@ == old(self)@.close(),
            final(self).wf(),
    {
        self.current_point = self.first_point;
        self.contour_count = 0;
    }

    /// Feeds one segment. On a cubic the tessellator is left as it was.
    pub fn apply(&mut self, segment: &OutlineSegment) -> (r: Result<(), GlyphError>)
        requires
            old(self).wf(),
            old(self)@.vertices.len() + 6 <= u32::MAX,
        ensures
            match old(self)@.step(*segment) {
                Some(s) => r is Ok && final(self)@ == s,
                None => r == Err::<(), GlyphError>(GlyphError::UnsupportedCubic) && final(self)@
                    == old(self)@,
            },
            final(self).wf(),
            final(self)@.vertices.len() <= old(self)@.vertices.len() + 6,
    {
        match *segment {
            OutlineSegment::MoveTo { x, y } => {
                self.move_to(x, y);
                Ok(())
            },
            OutlineSegment::LineTo { x, y } => {
                self.line_to(x, y);
                Ok(())
            },
            OutlineSegment::QuadTo { x1, y1, x, y } => {
                self.quad_to(x1, y1, x, y);
                Ok(())
            },
            OutlineSegment::CurveTo { x1, y1, x2, y2, x, y } => self.curve_to(x1, y1, x2, y2, x, y),
            OutlineSegment::Close => {
                self.close();
                Ok(())
            },
        }
    }
}

impl Default for GlyphBuilder {
    fn default() -> (builder: GlyphBuilder)
        ensures
            builder@ == OutlineState::start(),
            builder.wf(),
    {
        GlyphBuilder::new()
    }
}

/// Whether `dst` is `src` moved by the caller's placement: the position is
/// one that `place` may return for the source position, and the curve
/// coordinates and the color are carried over.
pub open spec fn placed_by<F: Fn(Vec2) -> Vec2>(place: F, src: Vert, dst: Vert) -> bool {
    &&& call_ensures(
        place,
        (Vec2 { x: src.pos.x, y: src.pos.y },),
        Vec2 { x: dst.pos.x, y: dst.pos.y },
    )
    &&& dst.pos.z == src.pos.z
    &&& dst.pos.w == src.pos.w
    &&& dst.col == src.col
}

/// Whether `dst` is all of `src`, each vertex moved by the caller's placement.
pub open spec fn all_placed_by<F: Fn(Vec2) -> Vec2>(place: F, src: Seq<Vert>, dst: Seq<Vert>) -> bool {
    &&& dst.len() == src.len()
    &&& forall|k: int| 0 <= k < src.len() ==> placed_by(place, src[k], #[trigger] dst[k])
}

impl DrawList {
    /// Replays `glyph` into the active layer, unless it is out of sight.
    ///
    /// `view` is the world rectangle that the camera sees and `placed_box` the
    /// glyph's bounding box where it is to stand. If the two do not meet, the
    /// list is left as it is and `place` is never called. Otherwise every
    /// glyph vertex is appended with the position that `place` gives it, every
    /// glyph index is appended moved up by the number of vertices that were
    /// there before, and the active layer grows by the glyph's triangles.
    pub fn add_glyph<F: Fn(Vec2) -> Vec2>(
        &mut self,
        view: &Bounds,
        placed_box: Option<Bounds>,
        glyph: &Glyph,
        place: F,
    )
        requires
            old(self).wf(),
            glyph.wf(),
            glyph_visible(*view, placed_box) ==> old(self)@.has_room(
                glyph.vtx_buffer@.len(),
                glyph.num_of_elems as nat,
            ),
            forall|p: Vec2| call_requires(place, (p,)),
        ensures
            !glyph_visible(*view, placed_box) ==> final(self)@ == old(self)@,
            glyph_visible(*view, placed_box) ==> {
                let base = old(self)@.vertices.len() as int;
                let placed = final(self)@.vertices.subrange(
                    base,
                    final(self)@.vertices.len() as int,
                );
                &&& all_placed_by(place, glyph.vtx_buffer@, placed)
                &&& final(self)@ == old(self)@.append(placed, rebase(glyph.idx_buffer@, base))
            },
            final(self).wf(),
    {
        if let Some(b) = placed_box {
            if !b.intersects(view) {
                return ;
            }
        }
        let base = self.vtx_buffer.len() as u32;
        let idx_count = glyph.idx_buffer.len();
        let vtx_count = glyph.vtx_buffer.len();
        self.reserve(idx_count, vtx_count);
        let mut i: usize = 0;
        while i < idx_count
            invariant
                idx_count == glyph.idx_buffer@.len(),
                i <= idx_count,
                glyph.wf(),
                base + glyph.vtx_buffer@.len() <= u32::MAX,
                self.cmds@ == old(self).cmds@,
                self.vtx_buffer@ == old(self).vtx_buffer@,
                self.idx_buffer@ == old(self).idx_buffer@ + rebase(
                    glyph.idx_buffer@,
                    base as int,
                ).take(i as int),
            decreases idx_count - i,
        {
            let ghost before = self.idx_buffer@;
            self.idx_buffer.push(glyph.idx_buffer[i] + base);
            proof {
                let all = rebase(glyph.idx_buffer@, base as int);
                assert(all.take(i + 1) =~= all.take(i as int).push(all[i as int]));
                assert(self.idx_buffer@ =~= old(self).idx_buffer@ + all.take(i + 1));
            }
            i += 1;
        }
        let mut k: usize = 0;
        while k < vtx_count
            invariant
                vtx_count == glyph.vtx_buffer@.len(),
                k <= vtx_count,
                forall|p: Vec2| call_requires(place, (p,)),
                self.cmds@ == old(self).cmds@,
                self.idx_buffer@ == old(self).idx_buffer@ + rebase(
                    glyph.idx_buffer@,
                    base as int,
                ).take(idx_count as int),
                self.vtx_buffer@.len() == old(self).vtx_buffer@.len() + k,
                self.vtx_buffer@.take(base as int) == old(self).vtx_buffer@,
                base == old(self).vtx_buffer@.len(),
                forall|j: int|
                    0 <= j < k ==> placed_by(
                        place,
                        glyph.vtx_buffer@[j],
                        #[trigger] self.vtx_buffer@[base + j],
                    ),
            decreases vtx_count - k,
        {
            let v = glyph.vtx_buffer[k];
            let p = place(Vec2 { x: v.pos.x, y: v.pos.y });
            let ghost before = self.vtx_buffer@;
            self.vtx_buffer.push(Vert { pos: Vec4 { x: p.x, y: p.y, z: v.pos.z, w: v.pos.w }, col: v.col });
            proof {
                assert(self.vtx_buffer@.take(base as int) =~= before.take(base as int));
                assert forall|j: int| 0 <= j < k + 1 implies placed_by(
                    place,
                    glyph.vtx_buffer@[j],
                    #[trigger] self.vtx_buffer@[base + j],
                ) by {
                    if j < k {
                        assert(self.vtx_buffer@[base + j] == before[base + j]);
                    }
                }
            }
            k += 1;
        }
        let last = self.cmds.len() - 1;
        proof {
            let s = old(self)@;
            let all = rebase(glyph.idx_buffer@, base as int);
            let placed = self.vtx_buffer@.subrange(base as int, self.vtx_buffer@.len() as int);
            assert(all.take(idx_count as int) =~= all);
            assert(self.vtx_buffer@ =~= s.vertices + placed);
            assert(s.layer_ok(last as int));
            assert(all.len() / 3 == glyph.num_of_elems);
            lemma_append_wf(s, placed, all);
        }
        self.cmds[last].num_of_elems += glyph.num_of_elems;
        proof {
            let s = old(self)@;
            let placed = self.vtx_buffer@.subrange(base as int, self.vtx_buffer@.len() as int);
            let t = s.append(placed, rebase(glyph.idx_buffer@, base as int));
            assert(self@.cmds =~= t.cmds);
            assert(self@.indices =~= t.indices);
            assert(self@.vertices =~= t.vertices);
            assert forall|k: int| 0 <= k < glyph.vtx_buffer@.len() implies placed_by(
                place,
                glyph.vtx_buffer@[k],
                #[trigger] placed[k],
            ) by {
                assert(placed[k] == self.vtx_buffer@[base + k]);
            }
        }
    }
}

/// The coverage tag as a value.
fn tag() -> (col: Color)
    ensures
        col == coverage_tag(),
{
    Vec4 {
        x: Scalar::zero(),
        y: Scalar::zero(),
        z: Scalar { bits: ONE_255TH_BITS },
        w: Scalar::one(),
    }
}

} // verus!
