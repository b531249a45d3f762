//! Meshes of thick lines with round caps, of rings and of squares.
//!
//! The caller samples the geometry (corners, points on the caps, points on
//! the two circles of a ring); the functions here turn the samples into
//! vertices and triangles of the active layer.

use crate::draw_list::{
    fill_vert, lemma_append_append, lemma_room_for_count, rect_indices, rect_verts, Color,
    DrawList, DrawListView, Vec2, Vert,
};
use vstd::prelude::*;

verus! {

/// The four corners of a line's body. Side `a` lies to the right of the
/// direction of travel in a y-down plane, side `b` to the left.
#[derive(Clone, Copy, Debug, PartialEq, Eq, Structural)]
pub struct LineBody {
    pub start_a: Vec2,
    pub end_a: Vec2,
    pub end_b: Vec2,
    pub start_b: Vec2,
}

/// The end of a line that a cap sample rounds off.
#[derive(Clone, Copy, Debug, PartialEq, Eq, Structural)]
pub enum LineEnd {
    Start,
    End,
}

/// One point on the rim of a round cap, and the end it belongs to.
#[derive(Clone, Copy, Debug, PartialEq, Eq, Structural)]
pub struct CapSample {
    pub end: LineEnd,
    pub point: Vec2,
}

/// One angular sample of a ring: the point on the outer circle and the point
/// on the inner circle at the same angle.
#[derive(Clone, Copy, Debug, PartialEq, Eq, Structural)]
pub struct RingSample {
    pub outer: Vec2,
    pub inner: Vec2,
}

/// The vertices of a line: the body corners `start_a`, `end_a`, `end_b`,
/// `start_b`, then the cap samples in order.
pub open spec fn line_verts(body: LineBody, caps: Seq<CapSample>, col: Color) -> Seq<Vert> {
    seq![
        fill_vert(body.start_a.x, body.start_a.y, col),
        fill_vert(body.end_a.x, body.end_a.y, col),
        fill_vert(body.end_b.x, body.end_b.y, col),
        fill_vert(body.start_b.x, body.start_b.y, col),
    ] + Seq::new(caps.len(), |k: int| fill_vert(caps[k].point.x, caps[k].point.y, col))
}

/// The vertex that the cap triangle of sample `k` starts its rim from, when
/// the sample is at the start of the line: the sample before it if that one
/// is at the start too, else the body corner `start_b`.
pub open spec fn start_anchor(base: int, caps: Seq<CapSample>, k: int) -> int {
    if k > 0 && caps[k - 1].end == LineEnd::Start {
        base + 4 + (k - 1)
    } else {
        base + 3
    }
}

/// The same for a sample at the end of the line: the sample before it if
/// that one is at the end too, else the body corner `end_a`.
pub open spec fn end_anchor(base: int, caps: Seq<CapSample>, k: int) -> int {
    if k > 0 && caps[k - 1].end == LineEnd::End {
        base + 4 + (k - 1)
    } else {
        base + 1
    }
}

/// The triangle of cap sample `k`. At the start it fans around `start_a`, at
/// the end around `end_b`, so each cap joins the body at both of its corners.
pub open spec fn cap_triangle(base: int, caps: Seq<CapSample>, k: int) -> Seq<u32> {
    match caps[k].end {
        LineEnd::Start => seq![
            base as u32,
            start_anchor(base, caps, k) as u32,
            (base + 4 + k) as u32,
        ],
        LineEnd::End => seq![
            end_anchor(base, caps, k) as u32,
            (base + 2) as u32,
            (base + 4 + k) as u32,
        ],
    }
}

/// The body's two triangles.
pub open spec fn body_indices(base: int) -> Seq<u32> {
    seq![
        base as u32,
        (base + 1) as u32,
        (base + 2) as u32,
        base as u32,
        (base + 2) as u32,
        (base + 3) as u32,
    ]
}

/// The indices of a line whose first vertex has index `base`: the body's two
/// triangles, then one triangle per cap sample.
pub open spec fn line_indices(base: int, caps: Seq<CapSample>) -> Seq<u32> {
    body_indices(base) + Seq::new(3 * caps.len(), |i: int| cap_triangle(base, caps, i / 3)[i % 3])
}

/// The vertices of a ring: outer and inner point of each sample in turn.
pub open spec fn ring_verts(ring: Seq<RingSample>, col: Color) -> Seq<Vert> {
    Seq::new(
        2 * ring.len(),
        |i: int|
            if i % 2 == 0 {
                fill_vert(ring[i / 2].outer.x, ring[i / 2].outer.y, col)
            } else {
                fill_vert(ring[i / 2].inner.x, ring[i / 2].inner.y, col)
            },
    )
}

/// The two triangles between samples `k` and `k + 1` of a ring: with outer
/// and inner vertices `o0, i0` and `o1, i1` they are `(o0, i0, o1)` and
/// `(o1, i1, i0)`.
pub open spec fn ring_quad(base: int, k: int) -> Seq<u32> {
    seq![
        (base + 2 * k) as u32,
        (base + 2 * k + 1) as u32,
        (base + 2 * k + 2) as u32,
        (base + 2 * k + 2) as u32,
        (base + 2 * k + 3) as u32,
        (base + 2 * k + 1) as u32,
    ]
}

/// The number of triangles in a ring of `samples` samples.
pub open spec fn ring_triangles(samples: nat) -> nat {
    if samples == 0 {
        0
    } else {
        (2 * (samples - 1)) as nat
    }
}

/// The indices of a ring whose first vertex has index `base`.
pub open spec fn ring_indices(base: int, samples: nat) -> Seq<u32> {
    Seq::new(3 * ring_triangles(samples), |i: int| ring_quad(base, i / 6)[i % 6])
}

/// An append after an append, for a list that has room for the first.
proof fn lemma_extend(
    s: DrawListView,
    v1: Seq<Vert>,
    i1: Seq<u32>,
    v2: Seq<Vert>,
    i2: Seq<u32>,
)
    requires
        s.wf(),
        i1.len() % 3 == 0,
        i2.len() % 3 == 0,
        s.indices.len() + i1.len() <= usize::MAX,
    ensures
        s.append(v1, i1).append(v2, i2) == s.append(v1 + v2, i1 + i2),
{
    lemma_room_for_count(s, i1.len() as int / 3);
    lemma_append_append(s, v1, i1, v2, i2);
}

impl DrawList {
    /// Appends a thick line: the body quad, then one vertex and one triangle
    /// per cap sample. With no samples the line has square ends.
    pub fn add_line(&mut self, body: &LineBody, caps: &[CapSample], col: Color)
        requires
            old(self).wf(),
            old(self)@.has_room(4 + caps@.len(), 2 + caps@.len()),
        ensures
            final(self)@ == old(self)@.append(
                line_verts(*body, caps@, col),
                line_indices(old(self)@.vertices.len() as int, caps@),
            ),
            final(self).wf(),
    {
        let n = caps.len();
        self.reserve((2 + n) * 3, 4 + n);
        let ghost s0 = self@;
        let ghost base = s0.vertices.len() as int;
        let ghost all_v = line_verts(*body, caps@, col);
        let ghost all_i = line_indices(base, caps@);
        let ghost e = Seq::<u32>::empty();
        let ghost none = Seq::<Vert>::empty();
        let v0 = self.push_vert(Vert::fill(body.start_a.x, body.start_a.y, col));
        let v1 = self.push_vert(Vert::fill(body.end_a.x, body.end_a.y, col));
        let v2 = self.push_vert(Vert::fill(body.end_b.x, body.end_b.y, col));
        let v3 = self.push_vert(Vert::fill(body.start_b.x, body.start_b.y, col));
        self.push_elem(v0, v1, v2);
        self.push_elem(v0, v2, v3);
        proof {
            let va = seq![fill_vert(body.start_a.x, body.start_a.y, col)];
            let vb = seq![fill_vert(body.end_a.x, body.end_a.y, col)];
            let vc = seq![fill_vert(body.end_b.x, body.end_b.y, col)];
            let vd = seq![fill_vert(body.start_b.x, body.start_b.y, col)];
            lemma_extend(s0, va, e, vb, e);
            assert(e + e =~= e);
            lemma_extend(s0, va + vb, e, vc, e);
            lemma_extend(s0, va + vb + vc, e, vd, e);
            lemma_extend(s0, va + vb + vc + vd, e, none, seq![v0, v1, v2]);
            assert(e + seq![v0, v1, v2] =~= seq![v0, v1, v2]);
            lemma_extend(s0, va + vb + vc + vd + none, seq![v0, v1, v2], none, seq![v0, v2, v3]);
            assert(va + vb + vc + vd + none + none =~= all_v.take(4));
            assert(seq![v0, v1, v2] + seq![v0, v2, v3] =~= all_i.take(6));
        }
        let mut v_t = v1;
        let mut v_b = v3;
        let mut k: usize = 0;
        while k < n
            invariant
                n == caps@.len(),
                k <= n,
                s0.wf(),
                s0.has_room((4 + n) as nat, (2 + n) as nat),
                base == s0.vertices.len(),
                all_v == line_verts(*body, caps@, col),
                all_i == line_indices(base, caps@),
                v0 == base,
                v1 == base + 1,
                v2 == base + 2,
                v3 == base + 3,
                v_t == end_anchor(base, caps@, k as int),
                v_b == start_anchor(base, caps@, k as int),
                self.wf(),
                self@ == s0.append(all_v.take(4 + k), all_i.take(6 + 3 * k)),
            decreases n - k,
        {
            let sample = caps[k];
            let ghost e = Seq::<u32>::empty();
            let ghost none = Seq::<Vert>::empty();
            let ghost vs = all_v.take(4 + k);
            let ghost is = all_i.take(6 + 3 * k);
            let ghost nv = seq![fill_vert(sample.point.x, sample.point.y, col)];
            let v = self.push_vert(Vert::fill(sample.point.x, sample.point.y, col));
            let ghost tri;
            match sample.end {
                LineEnd::Start => {
                    self.push_elem(v0, v_b, v);
                    proof {
                        tri = seq![v0, v_b, v];
                    }
                    v_b = v;
                    v_t = v1;
                },
                LineEnd::End => {
                    self.push_elem(v_t, v2, v);
                    proof {
                        tri = seq![v_t, v2, v];
                    }
                    v_t = v;
                    v_b = v3;
                },
            }
            proof {
                lemma_extend(s0, vs, is, nv, e);
                lemma_extend(s0, vs + nv, is + e, none, tri);
                assert(tri =~= cap_triangle(base, caps@, k as int));
                assert(vs + nv + none =~= all_v.take(4 + k + 1));
                assert(is + e + tri =~= all_i.take(6 + 3 * (k + 1)));
            }
            k += 1;
        }
        proof {
            assert(all_v.take(4 + n) =~= all_v);
            assert(all_i.take(6 + 3 * n) =~= all_i);
        }
    }

    /// Appends a ring as a strip of quads between consecutive samples; the
    /// caller closes the ring by ending on the sample it began with. Fewer
    /// than two samples give vertices but no triangle.
    pub fn add_circle(&mut self, ring: &[RingSample], col: Color)
        requires
            old(self).wf(),
            old(self)@.has_room(2 * ring@.len(), ring_triangles(ring@.len())),
        ensures
            final(self)@ == old(self)@.append(
                ring_verts(ring@, col),
                ring_indices(old(self)@.vertices.len() as int, ring@.len()),
            ),
            final(self).wf(),
    {
        let n = ring.len();
        let ghost s0 = self@;
        let ghost base = s0.vertices.len() as int;
        let ghost all_v = ring_verts(ring@, col);
        let ghost all_i = ring_indices(base, ring@.len());
        let ghost e = Seq::<u32>::empty();
        let ghost none = Seq::<Vert>::empty();
        if n == 0 {
            proof {
                assert(all_v =~= none);
                assert(all_i =~= e);
                let t = s0.append(all_v, all_i);
                assert(t.cmds =~= s0.cmds);
                assert(t.indices =~= s0.indices);
                assert(t.vertices =~= s0.vertices);
            }
            return ;
        }
        self.reserve(6 * (n - 1), 2 * n);
        let mut v_o0 = self.push_vert(Vert::fill(ring[0].outer.x, ring[0].outer.y, col));
        let mut v_i0 = self.push_vert(Vert::fill(ring[0].inner.x, ring[0].inner.y, col));
        proof {
            let va = seq![fill_vert(ring@[0].outer.x, ring@[0].outer.y, col)];
            let vb = seq![fill_vert(ring@[0].inner.x, ring@[0].inner.y, col)];
            lemma_extend(s0, va, e, vb, e);
            assert(e + e =~= e);
            assert(va + vb =~= all_v.take(2));
            assert(e =~= all_i.take(0));
        }
        let mut k: usize = 1;
        while k < n
            invariant
                n == ring@.len(),
                1 <= k <= n,
                s0.wf(),
                s0.has_room((2 * n) as nat, (2 * (n - 1)) as nat),
                base == s0.vertices.len(),
                all_v == ring_verts(ring@, col),
                all_i == ring_indices(base, ring@.len()),
                v_o0 == base + 2 * (k - 1),
                v_i0 == v_o0 + 1,
                self.wf(),
                self@ == s0.append(all_v.take(2 * k), all_i.take(6 * (k - 1))),
            decreases n - k,
        {
            let sample = ring[k];
            let ghost e = Seq::<u32>::empty();
            let ghost none = Seq::<Vert>::empty();
            let ghost vs = all_v.take(2 * k);
            let ghost is = all_i.take(6 * (k - 1));
            let ghost vo = seq![fill_vert(sample.outer.x, sample.outer.y, col)];
            let ghost vi = seq![fill_vert(sample.inner.x, sample.inner.y, col)];
            let v_o1 = self.push_vert(Vert::fill(sample.outer.x, sample.outer.y, col));
            let v_i1 = self.push_vert(Vert::fill(sample.inner.x, sample.inner.y, col));
            self.push_elem(v_o0, v_i0, v_o1);
            self.push_elem(v_o1, v_i1, v_i0);
            proof {
                let t1 = seq![v_o0, v_i0, v_o1];
                let t2 = seq![v_o1, v_i1, v_i0];
                lemma_extend(s0, vs, is, vo, e);
                lemma_extend(s0, vs + vo, is + e, vi, e);
                lemma_extend(s0, vs + vo + vi, is + e + e, none, t1);
                lemma_extend(s0, vs + vo + vi + none, is + e + e + t1, none, t2);
                assert(t1 + t2 =~= ring_quad(base, k - 1));
                assert(vs + vo + vi + none + none =~= all_v.take(2 * (k + 1)));
                assert(is + e + e + t1 + t2 =~= all_i.take(6 * k));
            }
            v_o0 = v_o1;
            v_i0 = v_i1;
            k += 1;
        }
        proof {
            assert(all_v.take(2 * n) =~= all_v);
            assert(all_i.take(6 * (n - 1)) =~= all_i);
        }
    }

    /// Appends the axis-aligned rectangle with corners `lo` and `hi`: four
    /// vertices and the triangles `(a, b, c)`, `(b, c, d)`.
    pub fn add_square(&mut self, lo: Vec2, hi: Vec2, col: Color)
        requires
            old(self).wf(),
            old(self)@.has_room(4, 2),
        ensures
            final(self)@ == old(self)@.append(
                rect_verts(lo, hi, col),
                rect_indices(old(self)@.vertices.len() as int),
            ),
            final(self).wf(),
    {
        self.reserve(6, 4);
        let ghost s0 = self@;
        let a = self.push_vert(Vert::fill(lo.x, lo.y, col));
        let ghost s1 = self@;
        let b = self.push_vert(Vert::fill(hi.x, lo.y, col));
        let ghost s2 = self@;
        let c = self.push_vert(Vert::fill(lo.x, hi.y, col));
        let ghost s3 = self@;
        let d = self.push_vert(Vert::fill(hi.x, hi.y, col));
        let ghost s4 = self@;
        self.push_elem(a, b, c);
        let ghost s5 = self@;
        self.push_elem(b, c, d);
        proof {
            let e = Seq::<u32>::empty();
            let n = Seq::<Vert>::empty();
            let va = seq![fill_vert(lo.x, lo.y, col)];
            let vb = seq![fill_vert(hi.x, lo.y, col)];
            let vc = seq![fill_vert(lo.x, hi.y, col)];
            let vd = seq![fill_vert(hi.x, hi.y, col)];
            lemma_room_for_count(s0, 2);
            lemma_append_append(s0, va, e, vb, e);
            assert(e + e =~= e);
            lemma_append_append(s0, va + vb, e, vc, e);
            lemma_append_append(s0, va + vb + vc, e, vd, e);
            lemma_append_append(s0, va + vb + vc + vd, e, n, seq![a, b, c]);
            assert(e + seq![a, b, c] =~= seq![a, b, c]);
            lemma_append_append(s0, va + vb + vc + vd + n, seq![a, b, c], n, seq![b, c, d]);
            assert(va + vb + vc + vd + n + n =~= rect_verts(lo, hi, col));
            assert(seq![a, b, c] + seq![b, c, d] =~= rect_indices(s0.vertices.len() as int));
        }
    }
}

} // verus!
