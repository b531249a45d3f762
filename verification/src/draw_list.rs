//! The draw list: one shared vertex buffer, one shared index buffer, and the
//! ordered layers that split the index buffer into draw calls.

use crate::scalar::{Scalar, NEG_ONE_BITS, ONE_BITS, ZERO_BITS};
use vstd::prelude::*;

verus! {

/// A point or offset in the plane.
#[derive(Clone, Copy, Debug, PartialEq, Eq, Structural)]
pub struct Vec2 {
    pub x: Scalar,
    pub y: Scalar,
}

/// Four scalars: a vertex position `(x, y, u, v)` or a color `(r, g, b, a)`.
#[derive(Clone, Copy, Debug, PartialEq, Eq, Structural)]
pub struct Vec4 {
    pub x: Scalar,
    pub y: Scalar,
    pub z: Scalar,
    pub w: Scalar,
}

/// A color; `x`, `y`, `z`, `w` are red, green, blue and alpha.
pub type Color = Vec4;

/// The size of the screen in pixels.
#[derive(Clone, Copy, Debug, PartialEq, Eq, Structural)]
pub struct ScreenSize {
    pub x: u32,
    pub y: u32,
}

/// What a frame is drawn with: the screen, and the camera that maps world
/// space to it as `screen = world * scale + translate`.
#[derive(Clone, Copy, Debug, PartialEq, Eq, Structural)]
pub struct DrawContext {
    pub screen_size: ScreenSize,
    pub pixel_ratio: Scalar,
    pub translate: Vec2,
    pub scale: Scalar,
    pub bg_color: Color,
}

impl DrawContext {
    /// A context for a screen of `screen_size`: pixel ratio 1, no translation,
    /// scale 1, white background.
    pub fn new(screen_size: ScreenSize) -> (ctx: DrawContext)
        ensures
            ctx.screen_size == screen_size,
            ctx.pixel_ratio.bits == ONE_BITS,
            ctx.translate.x.bits == ZERO_BITS,
            ctx.translate.y.bits == ZERO_BITS,
            ctx.scale.bits == ONE_BITS,
            ctx.bg_color.x.bits == ONE_BITS,
            ctx.bg_color.y.bits == ONE_BITS,
            ctx.bg_color.z.bits == ONE_BITS,
            ctx.bg_color.w.bits == ONE_BITS,
    {
        DrawContext {
            screen_size,
            pixel_ratio: Scalar::one(),
            translate: Vec2 { x: Scalar::zero(), y: Scalar::zero() },
            scale: Scalar::one(),
            bg_color: Vec4 { x: Scalar::one(), y: Scalar::one(), z: Scalar::one(), w: Scalar::one() },
        }
    }
}

/// One vertex as the rasterizer reads it. `pos.z` and `pos.w` are the curve
/// coordinates `(u, v)` of glyph triangles and constants elsewhere.
#[derive(Clone, Copy, Debug, PartialEq, Eq, Structural)]
pub struct Vert {
    pub pos: Vec4,
    pub col: Color,
}

/// One layer: `num_of_elems` triangles whose indices start at `idx_offset`.
#[derive(Clone, Copy, Debug, PartialEq, Eq, Structural)]
pub struct DrawCmd {
    pub vtx_offset: usize,
    pub idx_offset: usize,
    pub num_of_elems: usize,
    pub is_text: bool,
}

impl Vec2 {
    pub fn new(x: Scalar, y: Scalar) -> (v: Vec2)
        ensures
            v == (Vec2 { x, y }),
    {
        Vec2 { x, y }
    }
}

impl Vec4 {
    pub fn new(x: Scalar, y: Scalar, z: Scalar, w: Scalar) -> (v: Vec4)
        ensures
            v == (Vec4 { x, y, z, w }),
    {
        Vec4 { x, y, z, w }
    }
}

/// A vertex of an ordinary filled triangle at `(x, y)`: its curve coordinates
/// are the constants `(0, 1)`.
pub open spec fn fill_vert(x: Scalar, y: Scalar, col: Color) -> Vert {
    Vert {
        pos: Vec4 { x, y, z: Scalar { bits: ZERO_BITS }, w: Scalar { bits: ONE_BITS } },
        col,
    }
}

impl Vert {
    /// A vertex of an ordinary filled triangle.
    pub fn fill(x: Scalar, y: Scalar, col: Color) -> (v: Vert)
        ensures
            v == fill_vert(x, y, col),
    {
        Vert { pos: Vec4 { x, y, z: Scalar::zero(), w: Scalar::one() }, col }
    }

    /// The eight words of a vertex in buffer order: position, then color.
    pub open spec fn words(self) -> Seq<u32> {
        seq![
            self.pos.x.bits,
            self.pos.y.bits,
            self.pos.z.bits,
            self.pos.w.bits,
            self.col.x.bits,
            self.col.y.bits,
            self.col.z.bits,
            self.col.w.bits,
        ]
    }
}

/// The vertex buffer as the flat run of words that is uploaded: eight per
/// vertex, vertices in order.
pub open spec fn flatten(vertices: Seq<Vert>) -> Seq<u32> {
    Seq::new(8 * vertices.len(), |k: int| vertices[k / 8].words()[k % 8])
}

/// The four corners of an axis-aligned rectangle, in the order
/// `(lo.x, lo.y)`, `(hi.x, lo.y)`, `(lo.x, hi.y)`, `(hi.x, hi.y)`.
pub open spec fn rect_verts(lo: Vec2, hi: Vec2, col: Color) -> Seq<Vert> {
    seq![
        fill_vert(lo.x, lo.y, col),
        fill_vert(hi.x, lo.y, col),
        fill_vert(lo.x, hi.y, col),
        fill_vert(hi.x, hi.y, col),
    ]
}

/// The two triangles `(a, b, c)` and `(b, c, d)` of the four vertices that
/// start at index `base`.
pub open spec fn rect_indices(base: int) -> Seq<u32> {
    seq![
        base as u32,
        (base + 1) as u32,
        (base + 2) as u32,
        (base + 1) as u32,
        (base + 2) as u32,
        (base + 3) as u32,
    ]
}

/// The quad that covers the whole screen in normalized device coordinates,
/// corners at `(-1, -1)`, `(1, -1)`, `(-1, 1)`, `(1, 1)`.
pub open spec fn screen_quad(col: Color) -> Seq<Vert> {
    rect_verts(
        Vec2 { x: Scalar { bits: NEG_ONE_BITS }, y: Scalar { bits: NEG_ONE_BITS } },
        Vec2 { x: Scalar { bits: ONE_BITS }, y: Scalar { bits: ONE_BITS } },
        col,
    )
}

impl DrawCmd {
    /// The layer every draw list starts with: empty, at offset zero, not text.
    pub open spec fn first() -> DrawCmd {
        DrawCmd { vtx_offset: 0, idx_offset: 0, num_of_elems: 0, is_text: false }
    }
}

impl Default for DrawCmd {
    fn default() -> (cmd: DrawCmd)
        ensures
            cmd == DrawCmd::first(),
    {
        DrawCmd { vtx_offset: 0, idx_offset: 0, num_of_elems: 0, is_text: false }
    }
}

/// What a draw list holds, as mathematical sequences.
pub struct DrawListView {
    pub cmds: Seq<DrawCmd>,
    pub indices: Seq<u32>,
    pub vertices: Seq<Vert>,
}

impl DrawListView {
    /// The state of a fresh or cleared list: one empty default layer.
    pub open spec fn empty() -> DrawListView {
        DrawListView { cmds: seq![DrawCmd::first()], indices: Seq::empty(), vertices: Seq::empty() }
    }

    /// The state after `clear`, whatever the state before.
    pub open spec fn cleared(self) -> DrawListView {
        DrawListView::empty()
    }

    /// Where the index run of layer `i` must end: at the next layer's offset,
    /// or at the end of the index buffer for the last layer.
    pub open spec fn layer_end(self, i: int) -> int {
        if i + 1 < self.cmds.len() {
            self.cmds[i + 1].idx_offset as int
        } else {
            self.indices.len() as int
        }
    }

    /// Where the vertices that layer `i` added end.
    pub open spec fn layer_vtx_end(self, i: int) -> int {
        if i + 1 < self.cmds.len() {
            self.cmds[i + 1].vtx_offset as int
        } else {
            self.vertices.len() as int
        }
    }

    /// A text layer begins with the screen quad: its first four vertices are
    /// the quad in one color and its first two triangles index them.
    pub open spec fn has_text_header(self, i: int) -> bool {
        let c = self.cmds[i];
        &&& c.num_of_elems >= 2
        &&& c.vtx_offset + 4 <= self.layer_vtx_end(i)
        &&& self.indices.subrange(c.idx_offset as int, c.idx_offset + 6) == rect_indices(
            c.vtx_offset as int,
        )
        &&& self.vertices.subrange(c.vtx_offset as int, c.vtx_offset + 4) == screen_quad(
            self.vertices[c.vtx_offset as int].col,
        )
    }

    /// Layer `i` owns exactly the indices from its offset to the start of the
    /// next layer, three per triangle, and a text layer has its header.
    pub open spec fn layer_ok(self, i: int) -> bool {
        let c = self.cmds[i];
        &&& c.idx_offset + 3 * c.num_of_elems == self.layer_end(i)
        &&& self.layer_end(i) <= self.indices.len()
        &&& c.vtx_offset <= self.layer_vtx_end(i)
        &&& self.layer_vtx_end(i) <= self.vertices.len()
        &&& c.is_text ==> self.has_text_header(i)
    }

    /// Every index names a vertex that exists.
    pub open spec fn indices_in_bounds(self) -> bool {
        forall|j: int| 0 <= j < self.indices.len() ==> (#[trigger] self.indices[j]) < self.vertices.len()
    }

    /// The invariant of a draw list.
    pub open spec fn wf(self) -> bool {
        &&& self.cmds.len() >= 1
        &&& self.cmds[0].idx_offset == 0
        &&& self.cmds[0].vtx_offset == 0
        &&& self.vertices.len() <= u32::MAX
        &&& self.indices.len() <= usize::MAX
        &&& self.indices_in_bounds()
        &&& forall|i: int| 0 <= i < self.cmds.len() ==> #[trigger] self.layer_ok(i)
    }

    /// The last layer, the one that new geometry goes to.
    pub open spec fn active(self) -> DrawCmd {
        self.cmds[self.cmds.len() - 1]
    }

    /// Whether `vertices` more vertices can still be indexed by a `u32` and
    /// `triangles` more triangles still fit the index buffer.
    pub open spec fn has_room(self, vertices: nat, triangles: nat) -> bool {
        &&& self.vertices.len() + vertices <= u32::MAX
        &&& self.indices.len() + 3 * triangles <= usize::MAX
    }

    /// A new empty layer that starts at the current ends of both buffers.
    pub open spec fn open_layer(self, is_text: bool) -> DrawListView {
        DrawListView {
            cmds: self.cmds.push(
                DrawCmd {
                    vtx_offset: self.vertices.len() as usize,
                    idx_offset: self.indices.len() as usize,
                    num_of_elems: 0,
                    is_text,
                },
            ),
            ..self
        }
    }

    /// `vertices` and the triangles `indices` added to the active layer.
    pub open spec fn append(self, vertices: Seq<Vert>, indices: Seq<u32>) -> DrawListView {
        DrawListView {
            cmds: self.cmds.update(
                self.cmds.len() - 1,
                DrawCmd {
                    num_of_elems: (self.active().num_of_elems + indices.len() / 3) as usize,
                    ..self.active()
                },
            ),
            indices: self.indices + indices,
            vertices: self.vertices + vertices,
        }
    }

    /// A new text layer, opened and given its screen quad in color `col`.
    pub open spec fn open_text_layer(self, col: Color) -> DrawListView {
        self.open_layer(true).append(screen_quad(col), rect_indices(self.vertices.len() as int))
    }
}

/// Appending whole triangles whose indices name old or new vertices keeps a
/// draw list well formed.
pub proof fn lemma_append_wf(s: DrawListView, vertices: Seq<Vert>, indices: Seq<u32>)
    requires
        s.wf(),
        indices.len() % 3 == 0,
        s.has_room(vertices.len(), indices.len() / 3),
        forall|j: int|
            0 <= j < indices.len() ==> (#[trigger] indices[j]) < s.vertices.len() + vertices.len(),
    ensures
        s.append(vertices, indices).wf(),
{
    let t = s.append(vertices, indices);
    assert forall|i: int| 0 <= i < t.cmds.len() implies #[trigger] t.layer_ok(i) by {
        assert(s.layer_ok(i));
        let c = s.cmds[i];
        if c.is_text {
            assert(t.indices.subrange(c.idx_offset as int, c.idx_offset + 6)
                =~= s.indices.subrange(c.idx_offset as int, c.idx_offset + 6));
            assert(t.vertices.subrange(c.vtx_offset as int, c.vtx_offset + 4)
                =~= s.vertices.subrange(c.vtx_offset as int, c.vtx_offset + 4));
        }
    }
    assert forall|j: int| 0 <= j < t.indices.len() implies (#[trigger] t.indices[j])
        < t.vertices.len() by {
        if j < s.indices.len() {
            assert(t.indices[j] == s.indices[j]);
        } else {
            assert(t.indices[j] == indices[j - s.indices.len()]);
        }
    }
}

/// Two appends in a row are one append of both runs.
pub proof fn lemma_append_append(
    s: DrawListView,
    v1: Seq<Vert>,
    i1: Seq<u32>,
    v2: Seq<Vert>,
    i2: Seq<u32>,
)
    requires
        s.cmds.len() >= 1,
        i1.len() % 3 == 0,
        i2.len() % 3 == 0,
        s.active().num_of_elems + i1.len() / 3 <= usize::MAX,
    ensures
        s.append(v1, i1).append(v2, i2) == s.append(v1 + v2, i1 + i2),
{
    let a = s.append(v1, i1).append(v2, i2);
    let b = s.append(v1 + v2, i1 + i2);
    assert((i1 + i2).len() / 3 == i1.len() / 3 + i2.len() / 3);
    assert(a.cmds =~= b.cmds);
    assert(a.indices =~= b.indices);
    assert(a.vertices =~= b.vertices);
}

/// In a well-formed list with room for more triangles, counting them in the
/// active layer does not overflow.
pub proof fn lemma_room_for_count(s: DrawListView, triangles: int)
    requires
        s.wf(),
        0 <= triangles,
        s.indices.len() + 3 * triangles <= usize::MAX,
    ensures
        s.active().num_of_elems + triangles <= usize::MAX,
{
    assert(s.layer_ok(s.cmds.len() - 1));
}

/// Opening a plain layer keeps a draw list well formed.
pub proof fn lemma_open_layer_wf(s: DrawListView)
    requires
        s.wf(),
    ensures
        s.open_layer(false).wf(),
{
    let t = s.open_layer(false);
    assert forall|i: int| 0 <= i < t.cmds.len() implies #[trigger] t.layer_ok(i) by {
        if i < s.cmds.len() {
            assert(s.layer_ok(i));
        }
    }
}

/// Opening a text layer keeps a draw list well formed.
pub proof fn lemma_open_text_layer_wf(s: DrawListView, col: Color)
    requires
        s.wf(),
        s.has_room(4, 2),
    ensures
        s.open_text_layer(col).wf(),
{
    let quad = screen_quad(col);
    let idx = rect_indices(s.vertices.len() as int);
    let m = s.open_layer(true);
    let t = m.append(quad, idx);
    let last = s.cmds.len() as int;
    assert forall|i: int| 0 <= i < t.cmds.len() implies #[trigger] t.layer_ok(i) by {
        if i < last {
            assert(s.layer_ok(i));
            let c = s.cmds[i];
            if c.is_text {
                assert(t.indices.subrange(c.idx_offset as int, c.idx_offset + 6)
                    =~= s.indices.subrange(c.idx_offset as int, c.idx_offset + 6));
                assert(t.vertices.subrange(c.vtx_offset as int, c.vtx_offset + 4)
                    =~= s.vertices.subrange(c.vtx_offset as int, c.vtx_offset + 4));
            }
        } else {
            let c = t.cmds[i];
            assert(t.indices.subrange(c.idx_offset as int, c.idx_offset + 6) =~= idx);
            assert(t.vertices.subrange(c.vtx_offset as int, c.vtx_offset + 4) =~= quad);
        }
    }
    assert forall|j: int| 0 <= j < t.indices.len() implies (#[trigger] t.indices[j])
        < t.vertices.len() by {
        if j < s.indices.len() {
            assert(t.indices[j] == s.indices[j]);
        } else {
            assert(t.indices[j] == idx[j - s.indices.len()]);
        }
    }
}

/// The number of triangles in all of `cmds` together.
pub open spec fn total_primitives(cmds: Seq<DrawCmd>) -> int
    decreases cmds.len(),
{
    if cmds.len() == 0 {
        0
    } else {
        total_primitives(cmds.drop_last()) + cmds.last().num_of_elems
    }
}

/// The layers before layer `k` hold exactly the indices before its offset.
proof fn lemma_prefix_count(s: DrawListView, k: int)
    requires
        s.wf(),
        0 <= k <= s.cmds.len(),
    ensures
        3 * total_primitives(s.cmds.take(k)) == if k < s.cmds.len() {
            s.cmds[k].idx_offset as int
        } else {
            s.indices.len() as int
        },
    decreases k,
{
    if k > 0 {
        lemma_prefix_count(s, k - 1);
        assert(s.layer_ok(k - 1));
        assert(s.cmds.take(k).drop_last() =~= s.cmds.take(k - 1));
        assert(s.cmds.take(k).last() == s.cmds[k - 1]);
    }
}

/// Every index of a well-formed list is less than the number of vertices.
pub proof fn lemma_indices_in_bounds(s: DrawListView, j: int)
    requires
        s.wf(),
        0 <= j < s.indices.len(),
    ensures
        s.indices[j] < s.vertices.len(),
{
}

/// A well-formed list holds three indices for every triangle that its layers
/// count.
pub proof fn lemma_triangle_count(s: DrawListView)
    requires
        s.wf(),
    ensures
        3 * total_primitives(s.cmds) == s.indices.len(),
{
    lemma_prefix_count(s, s.cmds.len() as int);
    assert(s.cmds.take(s.cmds.len() as int) =~= s.cmds);
}

/// Clearing twice leaves what clearing once leaves: one empty default layer
/// and no geometry.
pub proof fn lemma_clear_idempotent(s: DrawListView)
    ensures
        s.cleared().cleared() == s.cleared(),
        s.cleared() == DrawListView::empty(),
        s.cleared().wf(),
{
    assert(DrawListView::empty().layer_ok(0));
}

/// Right after a text layer is opened it counts two triangles, and its first
/// six indices name its first four vertices, which are the corners of the
/// screen quad in the layer's color.
pub proof fn lemma_text_layer_header(s: DrawListView, col: Color)
    requires
        s.wf(),
        s.has_room(4, 2),
    ensures
        ({
            let t = s.open_text_layer(col);
            let c = t.active();
            &&& t.cmds.len() == s.cmds.len() + 1
            &&& c.is_text
            &&& c.num_of_elems == 2
            &&& c.idx_offset == s.indices.len()
            &&& c.vtx_offset == s.vertices.len()
            &&& t.indices.subrange(c.idx_offset as int, c.idx_offset + 6) == rect_indices(
                c.vtx_offset as int,
            )
            &&& t.vertices.subrange(c.vtx_offset as int, c.vtx_offset + 4) == screen_quad(col)
            &&& t.indices.len() == c.idx_offset + 6
            &&& t.vertices.len() == c.vtx_offset + 4
        }),
{
    let t = s.open_text_layer(col);
    let c = t.active();
    assert(t.indices.subrange(c.idx_offset as int, c.idx_offset + 6) =~= rect_indices(
        c.vtx_offset as int,
    ));
    assert(t.vertices.subrange(c.vtx_offset as int, c.vtx_offset + 4) =~= screen_quad(col));
}

/// A text layer keeps its header for as long as the list lives: whatever has
/// been appended since, its first six indices still name its first four
/// vertices, and these are still the screen quad.
pub proof fn lemma_text_layers_keep_header(s: DrawListView, i: int)
    requires
        s.wf(),
        0 <= i < s.cmds.len(),
        s.cmds[i].is_text,
    ensures
        s.has_text_header(i),
        s.cmds[i].idx_offset + 6 <= s.indices.len(),
        s.cmds[i].vtx_offset + 4 <= s.vertices.len(),
{
    assert(s.layer_ok(i));
}

/// One operation on a draw list, as far as its contents go. Every function
/// that changes a list performs one of these.
pub enum DrawOp {
    /// `clear`.
    Clear,
    /// `new_layer`.
    NewLayer,
    /// `new_text_layer` with a background color.
    NewTextLayer(Color),
    /// Vertices and whole triangles added to the active layer: a vertex, a
    /// triangle, a glyph or a shape.
    Append(Seq<Vert>, Seq<u32>),
}

impl DrawListView {
    /// Whether `op` may be applied: there is room for what it adds, and the
    /// triangles it adds name vertices that exist once it is done.
    pub open spec fn admits(self, op: DrawOp) -> bool {
        match op {
            DrawOp::Clear => true,
            DrawOp::NewLayer => true,
            DrawOp::NewTextLayer(_) => self.has_room(4, 2),
            DrawOp::Append(vertices, indices) => {
                &&& indices.len() % 3 == 0
                &&& self.has_room(vertices.len(), indices.len() / 3)
                &&& forall|j: int|
                    0 <= j < indices.len() ==> (#[trigger] indices[j]) < self.vertices.len()
                        + vertices.len()
            },
        }
    }

    /// The list after `op`.
    pub open spec fn apply(self, op: DrawOp) -> DrawListView {
        match op {
            DrawOp::Clear => self.cleared(),
            DrawOp::NewLayer => self.open_layer(false),
            DrawOp::NewTextLayer(col) => self.open_text_layer(col),
            DrawOp::Append(vertices, indices) => self.append(vertices, indices),
        }
    }

    /// Whether `ops` may be applied one after the other.
    pub open spec fn admits_all(self, ops: Seq<DrawOp>) -> bool
        decreases ops.len(),
    {
        ops.len() > 0 ==> self.admits_all(ops.drop_last()) && self.apply_all(
            ops.drop_last(),
        ).admits(ops.last())
    }

    /// The list after all of `ops` in order.
    pub open spec fn apply_all(self, ops: Seq<DrawOp>) -> DrawListView
        decreases ops.len(),
    {
        if ops.len() == 0 {
            self
        } else {
            self.apply_all(ops.drop_last()).apply(ops.last())
        }
    }
}

/// Every operation keeps a draw list well formed.
pub proof fn lemma_apply_wf(s: DrawListView, op: DrawOp)
    requires
        s.wf(),
        s.admits(op),
    ensures
        s.apply(op).wf(),
{
    match op {
        DrawOp::Clear => {
            lemma_clear_idempotent(s);
        },
        DrawOp::NewLayer => {
            lemma_open_layer_wf(s);
        },
        DrawOp::NewTextLayer(col) => {
            lemma_open_text_layer_wf(s, col);
        },
        DrawOp::Append(vertices, indices) => {
            lemma_append_wf(s, vertices, indices);
        },
    }
}

/// Whatever sequence of operations a new list goes through, every index stays
/// below the number of vertices and the layers count exactly the triangles
/// that the index buffer holds.
pub proof fn lemma_reachable_wf(ops: Seq<DrawOp>)
    requires
        DrawListView::empty().admits_all(ops),
    ensures
        DrawListView::empty().apply_all(ops).wf(),
        DrawListView::empty().apply_all(ops).indices_in_bounds(),
        3 * total_primitives(DrawListView::empty().apply_all(ops).cmds)
            == DrawListView::empty().apply_all(ops).indices.len(),
    decreases ops.len(),
{
    if ops.len() == 0 {
        assert(DrawListView::empty().layer_ok(0));
    } else {
        lemma_reachable_wf(ops.drop_last());
        lemma_apply_wf(DrawListView::empty().apply_all(ops.drop_last()), ops.last());
    }
    lemma_triangle_count(DrawListView::empty().apply_all(ops));
}

/// An append touches no layer but the active one, whose count grows by the
/// triangles appended.
pub proof fn lemma_append_grows_active(s: DrawListView, vertices: Seq<Vert>, indices: Seq<u32>)
    requires
        s.wf(),
        s.has_room(vertices.len(), indices.len() / 3),
    ensures
        ({
            let t = s.append(vertices, indices);
            &&& t.cmds.len() == s.cmds.len()
            &&& forall|i: int| 0 <= i < s.cmds.len() - 1 ==> t.cmds[i] == s.cmds[i]
            &&& t.active().num_of_elems == s.active().num_of_elems + indices.len() / 3
            &&& t.active().idx_offset == s.active().idx_offset
            &&& t.active().vtx_offset == s.active().vtx_offset
            &&& t.active().is_text == s.active().is_text
        }),
{
    lemma_room_for_count(s, indices.len() as int / 3);
}

/// The frame's geometry: layers, triangle indices and vertices.
#[derive(Clone, Debug)]
pub struct DrawList {
    pub cmds: Vec<DrawCmd>,
    pub idx_buffer: Vec<u32>,
    pub vtx_buffer: Vec<Vert>,
}

impl View for DrawList {
    type V = DrawListView;

    open spec fn view(&self) -> DrawListView {
        DrawListView { cmds: self.cmds@, indices: self.idx_buffer@, vertices: self.vtx_buffer@ }
    }
}

impl DrawList {
    /// The invariant: see [`DrawListView::wf`].
    pub open spec fn wf(&self) -> bool {
        self@.wf()
    }

    /// A list with one empty default layer.
    pub fn new() -> (list: DrawList)
        ensures
            list@ == DrawListView::empty(),
            list.wf(),
    {
        let mut cmds = Vec::new();
        cmds.push(DrawCmd::default());
        let list = DrawList { cmds, idx_buffer: Vec::new(), vtx_buffer: Vec::new() };
        assert(list@.cmds =~= DrawListView::empty().cmds);
        assert(list@.layer_ok(0));
        list
    }

    /// Drops all geometry and all layers but one empty default layer.
    pub fn clear(&mut self)
        ensures
            final(self)@ == old(self)@.cleared(),
            final(self).wf(),
    {
        self.cmds.clear();
        self.cmds.push(DrawCmd::default());
        self.idx_buffer.clear();
        self.vtx_buffer.clear();
        assert(self@.cmds =~= DrawListView::empty().cmds);
        assert(self@.layer_ok(0));
    }

    /// Closes the active layer and opens a plain one at the current ends of
    /// the buffers.
    pub fn new_layer(&mut self)
        requires
            old(self).wf(),
        ensures
            final(self)@ == old(self)@.open_layer(false),
            final(self).wf(),
    {
        proof {
            lemma_open_layer_wf(self@);
        }
        self.cmds.push(
            DrawCmd {
                idx_offset: self.idx_buffer.len(),
                vtx_offset: self.vtx_buffer.len(),
                num_of_elems: 0,
                is_text: false,
            },
        );
    }

    /// Closes the active layer and opens a text layer. The new layer starts
    /// with the screen quad in `col`: four vertices and two triangles, which
    /// the rasterizer uses to composite the layer's coverage.
    pub fn new_text_layer(&mut self, col: Color)
        requires
            old(self).wf(),
            old(self)@.has_room(4, 2),
        ensures
            final(self)@ == old(self)@.open_text_layer(col),
            final(self).wf(),
    {
        let base = self.vtx_buffer.len() as u32;
        self.cmds.push(
            DrawCmd {
                idx_offset: self.idx_buffer.len(),
                vtx_offset: self.vtx_buffer.len(),
                num_of_elems: 2,
                is_text: true,
            },
        );
        self.vtx_buffer.push(Vert::fill(Scalar::neg_one(), Scalar::neg_one(), col));
        self.vtx_buffer.push(Vert::fill(Scalar::one(), Scalar::neg_one(), col));
        self.vtx_buffer.push(Vert::fill(Scalar::neg_one(), Scalar::one(), col));
        self.vtx_buffer.push(Vert::fill(Scalar::one(), Scalar::one(), col));
        self.idx_buffer.push(base);
        self.idx_buffer.push(base + 1);
        self.idx_buffer.push(base + 2);
        self.idx_buffer.push(base + 1);
        self.idx_buffer.push(base + 2);
        self.idx_buffer.push(base + 3);
        proof {
            let t = old(self)@.open_text_layer(col);
            lemma_open_text_layer_wf(old(self)@, col);
            assert(self@.cmds =~= t.cmds);
            assert(self@.indices =~= t.indices);
            assert(self@.vertices =~= t.vertices);
        }
    }

    /// Whether the list can take `vertices` more vertices and `triangles`
    /// more triangles: see [`DrawListView::has_room`].
    pub fn has_room(&self, vertices: usize, triangles: usize) -> (ok: bool)
        ensures
            ok == self@.has_room(vertices as nat, triangles as nat),
    {
        let used = self.vtx_buffer.len();
        let filled = self.idx_buffer.len();
        used <= 0xffff_ffff && vertices <= 0xffff_ffff - used && triangles <= (usize::MAX - filled)
            / 3
    }

    /// Asks both buffers to make room for `idx_count` more indices and
    /// `vtx_count` more vertices. The contents do not change.
    pub fn reserve(&mut self, idx_count: usize, vtx_count: usize)
        ensures
            final(self)@ == old(self)@,
    {
        self.idx_buffer.reserve(idx_count);
        self.vtx_buffer.reserve(vtx_count);
    }

    /// Appends one vertex and returns its index.
    pub fn push_vert(&mut self, vert: Vert) -> (idx: u32)
        requires
            old(self).wf(),
            old(self)@.has_room(1, 0),
        ensures
            idx == old(self)@.vertices.len(),
            final(self)@ == old(self)@.append(seq![vert], Seq::empty()),
            final(self).wf(),
    {
        proof {
            lemma_append_wf(self@, seq![vert], Seq::empty());
            assert(self@.vertices + seq![vert] =~= self@.vertices.push(vert));
            assert(self@.indices + Seq::<u32>::empty() =~= self@.indices);
            assert(self@.cmds.update(self@.cmds.len() - 1, self@.active()) =~= self@.cmds);
        }
        let idx = self.vtx_buffer.len() as u32;
        self.vtx_buffer.push(vert);
        idx
    }

    /// Appends the triangle `(a, b, c)` to the active layer.
    pub fn push_elem(&mut self, a: u32, b: u32, c: u32)
        requires
            old(self).wf(),
            a < old(self)@.vertices.len(),
            b < old(self)@.vertices.len(),
            c < old(self)@.vertices.len(),
        ensures
            final(self)@ == old(self)@.append(Seq::empty(), seq![a, b, c]),
            final(self).wf(),
    {
        self.idx_buffer.push(a);
        self.idx_buffer.push(b);
        self.idx_buffer.push(c);
        proof {
            assert(self.idx_buffer.len() <= usize::MAX);
            assert(old(self)@.layer_ok(old(self)@.cmds.len() - 1));
            lemma_append_wf(old(self)@, Seq::empty(), seq![a, b, c]);
            assert(old(self)@.indices + seq![a, b, c] =~= self@.indices);
            assert(old(self)@.vertices + Seq::<Vert>::empty() =~= self@.vertices);
        }
        let last = self.cmds.len() - 1;
        self.cmds[last].num_of_elems += 1;
    }
}

impl DrawList {
    /// The vertex buffer as flat words, eight per vertex in the order
    /// `x, y, u, v, r, g, b, a`.
    pub fn vertices(&self) -> (words: Vec<u32>)
        ensures
            words@ == flatten(self@.vertices),
    {
        let mut words: Vec<u32> = Vec::new();
        let n = self.vtx_buffer.len();
        let mut i: usize = 0;
        while i < n
            invariant
                n == self.vtx_buffer@.len(),
                i <= n,
                words@.len() == 8 * i,
                forall|k: int|
                    0 <= k < 8 * i ==> #[trigger] words@[k] == self.vtx_buffer@[k / 8].words()[k % 8],
            decreases n - i,
        {
            let v = self.vtx_buffer[i];
            let ghost before = words@;
            words.push(v.pos.x.bits);
            words.push(v.pos.y.bits);
            words.push(v.pos.z.bits);
            words.push(v.pos.w.bits);
            words.push(v.col.x.bits);
            words.push(v.col.y.bits);
            words.push(v.col.z.bits);
            words.push(v.col.w.bits);
            proof {
                assert(words@ =~= before + v.words());
                assert forall|k: int| 0 <= k < 8 * (i + 1) implies #[trigger] words@[k]
                    == self.vtx_buffer@[k / 8].words()[k % 8] by {
                    if k < 8 * i {
                        assert(words@[k] == before[k]);
                    } else {
                        assert(k / 8 == i);
                        assert(words@[k] == v.words()[k - 8 * i]);
                    }
                }
            }
            i += 1;
        }
        assert(words@ =~= flatten(self@.vertices));
        words
    }

    /// The index buffer.
    pub fn indices(&self) -> (indices: &[u32])
        ensures
            indices@ == self@.indices,
    {
        self.idx_buffer.as_slice()
    }
}

impl Default for DrawList {
    fn default() -> (list: DrawList)
        ensures
            list@ == DrawListView::empty(),
            list.wf(),
    {
        DrawList::new()
    }
}

} // verus!
