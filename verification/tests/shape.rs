use gl2d::draw_list::{Color, DrawList, Vec2, Vec4, Vert};
use gl2d::scalar::Scalar;
use gl2d::shape::{CapSample, LineBody, LineEnd, RingSample};

fn s(x: f32) -> Scalar {
    Scalar::from_bits(x.to_bits())
}

fn p(x: f32, y: f32) -> Vec2 {
    Vec2::new(s(x), s(y))
}

fn white() -> Color {
    Vec4::new(s(1.0), s(1.0), s(1.0), s(1.0))
}

fn fill(x: f32, y: f32, col: Color) -> Vert {
    Vert { pos: Vec4::new(s(x), s(y), s(0.0), s(1.0)), col }
}

/// Body corners and cap samples of a line as a caller computes them: the
/// direction scaled to half the thickness, and a full turn of rim points,
/// each assigned to the end on whose side of the body it lies.
fn sample_line(start: (f32, f32), end: (f32, f32), thickness: f32, screen_scale: f32) -> (LineBody, Vec<CapSample>) {
    let resolution = thickness * screen_scale;
    let count = if resolution <= 1.0 { 0 } else { (resolution * 1.5).ceil() as usize };
    let half = thickness * 0.5;
    let (mut dx, mut dy) = (end.0 - start.0, end.1 - start.1);
    let norm = (dx * dx + dy * dy).sqrt();
    if norm > 0.0 {
        dx /= norm;
        dy /= norm;
    }
    dx *= half;
    dy *= half;
    let body = LineBody {
        start_a: p(start.0 + dy, start.1 - dx),
        end_a: p(end.0 + dy, end.1 - dx),
        end_b: p(end.0 - dy, end.1 + dx),
        start_b: p(start.0 - dy, start.1 + dx),
    };
    let mut caps = Vec::new();
    if count > 0 {
        let (hx, hy) = (-dy, dx);
        for i in 0..=count {
            let rad = i as f32 * 2.0 / count as f32 * std::f32::consts::PI;
            let (rx, ry) = (rad.cos() * half, rad.sin() * half);
            if rx * hy - ry * hx < 0.0 {
                caps.push(CapSample { end: LineEnd::Start, point: p(start.0 + rx, start.1 + ry) });
            } else {
                caps.push(CapSample { end: LineEnd::End, point: p(end.0 + rx, end.1 + ry) });
            }
        }
    }
    (body, caps)
}

#[test]
fn square_is_two_triangles_on_four_corners() {
    let mut list = DrawList::new();
    list.add_square(p(-1.0, 2.0), p(3.0, 6.0), white());
    assert_eq!(
        list.vtx_buffer,
        vec![
            fill(-1.0, 2.0, white()),
            fill(3.0, 2.0, white()),
            fill(-1.0, 6.0, white()),
            fill(3.0, 6.0, white()),
        ]
    );
    assert_eq!(list.idx_buffer, vec![0, 1, 2, 1, 2, 3]);
    assert_eq!(list.cmds[0].num_of_elems, 2);
}

#[test]
fn second_square_is_rebased() {
    let mut list = DrawList::new();
    list.add_square(p(0.0, 0.0), p(1.0, 1.0), white());
    list.new_layer();
    list.add_square(p(2.0, 2.0), p(3.0, 3.0), white());
    assert_eq!(list.idx_buffer, vec![0, 1, 2, 1, 2, 3, 4, 5, 6, 5, 6, 7]);
    assert_eq!(list.cmds[0].num_of_elems, 2);
    assert_eq!(list.cmds[1].num_of_elems, 2);
    assert_eq!(list.cmds[1].idx_offset, 6);
    assert_eq!(list.cmds[1].vtx_offset, 4);
}

#[test]
fn degenerate_square_is_still_a_quad() {
    let mut list = DrawList::new();
    list.add_square(p(5.0, 5.0), p(5.0, 5.0), white());
    assert_eq!(list.vtx_buffer.len(), 4);
    assert_eq!(list.idx_buffer, vec![0, 1, 2, 1, 2, 3]);
    assert_eq!(list.cmds[0].num_of_elems, 2);
}

#[test]
fn thin_line_has_square_ends() {
    let mut list = DrawList::new();
    let (body, caps) = sample_line((0.0, 0.0), (10.0, 0.0), 1.0, 1.0);
    assert!(caps.is_empty());
    list.add_line(&body, &caps, white());
    assert_eq!(
        list.vtx_buffer,
        vec![
            fill(0.0, -0.5, white()),
            fill(10.0, -0.5, white()),
            fill(10.0, 0.5, white()),
            fill(0.0, 0.5, white()),
        ]
    );
    assert_eq!(list.idx_buffer, vec![0, 1, 2, 0, 2, 3]);
    assert_eq!(list.cmds[0].num_of_elems, 2);
}

#[test]
fn thick_line_gets_round_caps() {
    let mut list = DrawList::new();
    let (body, caps) = sample_line((0.0, 0.0), (10.0, 0.0), 2.0, 1.0);
    assert_eq!(caps.len(), 4);
    let ends: Vec<LineEnd> = caps.iter().map(|c| c.end).collect();
    assert_eq!(ends, vec![LineEnd::End, LineEnd::Start, LineEnd::Start, LineEnd::End]);
    list.add_line(&body, &caps, white());
    assert_eq!(list.vtx_buffer.len(), 4 + 4);
    assert_eq!(list.cmds[0].num_of_elems, 2 + 4);
    assert_eq!(
        list.idx_buffer,
        vec![0, 1, 2, 0, 2, 3, 1, 2, 4, 0, 3, 5, 0, 5, 6, 1, 2, 7]
    );
    assert_eq!(list.vtx_buffer[0], fill(0.0, -1.0, white()));
    assert_eq!(list.vtx_buffer[1], fill(10.0, -1.0, white()));
    assert_eq!(list.vtx_buffer[2], fill(10.0, 1.0, white()));
    assert_eq!(list.vtx_buffer[3], fill(0.0, 1.0, white()));
    assert_eq!(list.vtx_buffer[4], fill(11.0, 0.0, white()));
    for (k, cap) in caps.iter().enumerate() {
        assert_eq!(list.vtx_buffer[4 + k], Vert::fill(cap.point.x, cap.point.y, white()));
    }
}

#[test]
fn cap_fan_continues_from_the_previous_sample_on_the_same_end() {
    let mut list = DrawList::new();
    list.add_square(p(0.0, 0.0), p(1.0, 1.0), white());
    let body = LineBody { start_a: p(0.0, -1.0), end_a: p(10.0, -1.0), end_b: p(10.0, 1.0), start_b: p(0.0, 1.0) };
    let caps = vec![
        CapSample { end: LineEnd::End, point: p(11.0, 0.0) },
        CapSample { end: LineEnd::End, point: p(10.5, 0.8) },
        CapSample { end: LineEnd::Start, point: p(-0.5, 0.8) },
        CapSample { end: LineEnd::Start, point: p(-1.0, 0.0) },
        CapSample { end: LineEnd::End, point: p(10.5, -0.8) },
        CapSample { end: LineEnd::Start, point: p(-0.5, -0.8) },
    ];
    list.add_line(&body, &caps, white());
    assert_eq!(
        list.idx_buffer[6..],
        [
            4, 5, 6, 4, 6, 7, // body
            5, 6, 8, // end cap from end_a
            8, 6, 9, // end cap continues
            4, 7, 10, // start cap from start_b
            4, 10, 11, // start cap continues
            5, 6, 12, // end cap restarts at end_a
            4, 7, 13, // start cap restarts at start_b
        ]
    );
    assert_eq!(list.cmds[0].num_of_elems, 2 + 2 + 6);
    assert_eq!(list.vtx_buffer.len(), 4 + 4 + 6);
}

#[test]
fn zero_length_line_is_a_degenerate_quad() {
    let mut list = DrawList::new();
    let (body, caps) = sample_line((3.0, 3.0), (3.0, 3.0), 1.0, 1.0);
    list.add_line(&body, &caps, white());
    assert_eq!(list.vtx_buffer, vec![fill(3.0, 3.0, white()); 4]);
    assert_eq!(list.idx_buffer, vec![0, 1, 2, 0, 2, 3]);
    assert_eq!(list.cmds[0].num_of_elems, 2);
}

#[test]
fn ring_is_a_strip_of_quads() {
    let mut list = DrawList::new();
    let ring = vec![
        RingSample { outer: p(2.0, 0.0), inner: p(1.0, 0.0) },
        RingSample { outer: p(0.0, 2.0), inner: p(0.0, 1.0) },
        RingSample { outer: p(-2.0, 0.0), inner: p(-1.0, 0.0) },
        RingSample { outer: p(2.0, 0.0), inner: p(1.0, 0.0) },
    ];
    list.add_circle(&ring, white());
    assert_eq!(
        list.vtx_buffer,
        vec![
            fill(2.0, 0.0, white()),
            fill(1.0, 0.0, white()),
            fill(0.0, 2.0, white()),
            fill(0.0, 1.0, white()),
            fill(-2.0, 0.0, white()),
            fill(-1.0, 0.0, white()),
            fill(2.0, 0.0, white()),
            fill(1.0, 0.0, white()),
        ]
    );
    assert_eq!(
        list.idx_buffer,
        vec![0, 1, 2, 2, 3, 1, 2, 3, 4, 4, 5, 3, 4, 5, 6, 6, 7, 5]
    );
    assert_eq!(list.cmds[0].num_of_elems, 6);
}

#[test]
fn ring_after_other_geometry_is_rebased() {
    let mut list = DrawList::new();
    list.new_text_layer(white());
    let ring = vec![
        RingSample { outer: p(2.0, 0.0), inner: p(1.0, 0.0) },
        RingSample { outer: p(0.0, 2.0), inner: p(0.0, 1.0) },
    ];
    list.add_circle(&ring, white());
    assert_eq!(list.idx_buffer[6..], [4, 5, 6, 6, 7, 5]);
    assert_eq!(list.cmds[1].num_of_elems, 4);
    assert_eq!(list.vtx_buffer.len(), 8);
}

#[test]
fn ring_of_one_sample_has_vertices_but_no_triangle() {
    let mut list = DrawList::new();
    list.add_circle(&[RingSample { outer: p(0.5, 0.0), inner: p(-0.5, 0.0) }], white());
    assert_eq!(list.vtx_buffer, vec![fill(0.5, 0.0, white()), fill(-0.5, 0.0, white())]);
    assert!(list.idx_buffer.is_empty());
    assert_eq!(list.cmds[0].num_of_elems, 0);
}

#[test]
fn ring_of_no_samples_adds_nothing() {
    let mut list = DrawList::new();
    list.add_circle(&[], white());
    assert!(list.vtx_buffer.is_empty());
    assert!(list.idx_buffer.is_empty());
    assert_eq!(list.cmds.len(), 1);
    assert_eq!(list.cmds[0].num_of_elems, 0);
}
