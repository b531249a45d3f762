use gl2d::draw_list::{Color, DrawCmd, DrawList, Vec2, Vec4, Vert};
use gl2d::scalar::Scalar;

fn s(x: f32) -> Scalar {
    Scalar::from_bits(x.to_bits())
}

fn color(r: f32, g: f32, b: f32, a: f32) -> Color {
    Vec4::new(s(r), s(g), s(b), s(a))
}

fn vert(x: f32, y: f32, u: f32, v: f32, col: Color) -> Vert {
    Vert { pos: Vec4::new(s(x), s(y), s(u), s(v)), col }
}

fn total_primitives(list: &DrawList) -> usize {
    list.cmds.iter().map(|c| c.num_of_elems).sum()
}

fn assert_consistent(list: &DrawList) {
    assert!(!list.cmds.is_empty());
    assert_eq!(list.idx_buffer.len() % 3, 0);
    assert_eq!(total_primitives(list) * 3, list.idx_buffer.len());
    for &i in &list.idx_buffer {
        assert!((i as usize) < list.vtx_buffer.len());
    }
    for (k, c) in list.cmds.iter().enumerate() {
        let end = if k + 1 < list.cmds.len() { list.cmds[k + 1].idx_offset } else { list.idx_buffer.len() };
        assert_eq!(c.idx_offset + 3 * c.num_of_elems, end);
    }
}

#[test]
fn new_list_has_one_empty_default_layer() {
    let list = DrawList::new();
    assert_eq!(list.cmds, vec![DrawCmd { vtx_offset: 0, idx_offset: 0, num_of_elems: 0, is_text: false }]);
    assert!(list.idx_buffer.is_empty());
    assert!(list.vtx_buffer.is_empty());
    assert_consistent(&list);
}

#[test]
fn default_list_equals_new_list() {
    let list = DrawList::default();
    assert_eq!(list.cmds, DrawList::new().cmds);
    assert!(list.idx_buffer.is_empty());
    assert!(list.vtx_buffer.is_empty());
}

#[test]
fn default_cmd_is_empty_plain_layer() {
    let cmd = DrawCmd::default();
    assert_eq!(cmd, DrawCmd { vtx_offset: 0, idx_offset: 0, num_of_elems: 0, is_text: false });
}

#[test]
fn vec_constructors_keep_their_arguments() {
    let p = Vec2::new(s(1.5), s(-2.0));
    assert_eq!(p.x, s(1.5));
    assert_eq!(p.y, s(-2.0));
    let c = Vec4::new(s(0.1), s(0.2), s(0.3), s(0.4));
    assert_eq!((c.x, c.y, c.z, c.w), (s(0.1), s(0.2), s(0.3), s(0.4)));
}

#[test]
fn fill_vertex_has_constant_curve_coordinates() {
    let col = color(1.0, 0.0, 0.0, 1.0);
    assert_eq!(Vert::fill(s(3.0), s(4.0), col), vert(3.0, 4.0, 0.0, 1.0, col));
}

#[test]
fn push_vert_returns_consecutive_indices() {
    let mut list = DrawList::new();
    let col = color(1.0, 1.0, 1.0, 1.0);
    let a = list.push_vert(vert(0.0, 0.0, 0.0, 1.0, col));
    let b = list.push_vert(vert(1.0, 0.0, 0.0, 1.0, col));
    let c = list.push_vert(vert(0.0, 1.0, 0.0, 1.0, col));
    assert_eq!((a, b, c), (0, 1, 2));
    assert_eq!(list.vtx_buffer.len(), 3);
    assert_eq!(list.vtx_buffer[1], vert(1.0, 0.0, 0.0, 1.0, col));
    assert!(list.idx_buffer.is_empty());
    assert_eq!(list.cmds[0].num_of_elems, 0);
}

#[test]
fn push_elem_appends_three_indices_and_counts_one_triangle() {
    let mut list = DrawList::new();
    let col = color(1.0, 1.0, 1.0, 1.0);
    let a = list.push_vert(vert(0.0, 0.0, 0.0, 1.0, col));
    let b = list.push_vert(vert(1.0, 0.0, 0.0, 1.0, col));
    let c = list.push_vert(vert(0.0, 1.0, 0.0, 1.0, col));
    list.push_elem(a, b, c);
    list.push_elem(c, b, a);
    assert_eq!(list.idx_buffer, vec![0, 1, 2, 2, 1, 0]);
    assert_eq!(list.cmds.len(), 1);
    assert_eq!(list.cmds[0].num_of_elems, 2);
    assert_consistent(&list);
}

#[test]
fn reserve_changes_nothing_visible() {
    let mut list = DrawList::new();
    let col = color(1.0, 1.0, 1.0, 1.0);
    list.push_vert(vert(0.0, 0.0, 0.0, 1.0, col));
    list.reserve(300, 100);
    assert_eq!(list.vtx_buffer.len(), 1);
    assert!(list.idx_buffer.is_empty());
    assert_eq!(list.cmds.len(), 1);
    assert!(list.idx_buffer.capacity() >= 300);
    assert!(list.vtx_buffer.capacity() >= 101);
}

#[test]
fn new_layer_starts_at_current_offsets() {
    let mut list = DrawList::new();
    let col = color(1.0, 1.0, 1.0, 1.0);
    let a = list.push_vert(vert(0.0, 0.0, 0.0, 1.0, col));
    let b = list.push_vert(vert(1.0, 0.0, 0.0, 1.0, col));
    let c = list.push_vert(vert(0.0, 1.0, 0.0, 1.0, col));
    list.push_elem(a, b, c);
    list.new_layer();
    assert_eq!(list.cmds.len(), 2);
    assert_eq!(list.cmds[0], DrawCmd { vtx_offset: 0, idx_offset: 0, num_of_elems: 1, is_text: false });
    assert_eq!(list.cmds[1], DrawCmd { vtx_offset: 3, idx_offset: 3, num_of_elems: 0, is_text: false });
    list.push_elem(c, b, a);
    assert_eq!(list.cmds[0].num_of_elems, 1);
    assert_eq!(list.cmds[1].num_of_elems, 1);
    assert_consistent(&list);
}

#[test]
fn text_layer_begins_with_screen_quad() {
    let mut list = DrawList::new();
    let col = color(0.0, 0.0, 0.0, 1.0);
    list.new_text_layer(col);
    assert_eq!(list.cmds.len(), 2);
    assert_eq!(list.cmds[1], DrawCmd { vtx_offset: 0, idx_offset: 0, num_of_elems: 2, is_text: true });
    assert_eq!(list.idx_buffer, vec![0, 1, 2, 1, 2, 3]);
    assert_eq!(
        list.vtx_buffer,
        vec![
            vert(-1.0, -1.0, 0.0, 1.0, col),
            vert(1.0, -1.0, 0.0, 1.0, col),
            vert(-1.0, 1.0, 0.0, 1.0, col),
            vert(1.0, 1.0, 0.0, 1.0, col),
        ]
    );
    assert_consistent(&list);
}

#[test]
fn text_layer_after_geometry_is_rebased() {
    let mut list = DrawList::new();
    let white = color(1.0, 1.0, 1.0, 1.0);
    let a = list.push_vert(vert(0.0, 0.0, 0.0, 1.0, white));
    let b = list.push_vert(vert(1.0, 0.0, 0.0, 1.0, white));
    let c = list.push_vert(vert(0.0, 1.0, 0.0, 1.0, white));
    list.push_elem(a, b, c);
    let bg = color(0.25, 0.5, 0.75, 1.0);
    list.new_text_layer(bg);
    let cmd = list.cmds[1];
    assert_eq!(cmd, DrawCmd { vtx_offset: 3, idx_offset: 3, num_of_elems: 2, is_text: true });
    assert_eq!(&list.idx_buffer[cmd.idx_offset..cmd.idx_offset + 6], &[3, 4, 5, 4, 5, 6]);
    let corners: Vec<(f32, f32)> = list.vtx_buffer[cmd.vtx_offset..cmd.vtx_offset + 4]
        .iter()
        .map(|v| (f32::from_bits(v.pos.x.bits), f32::from_bits(v.pos.y.bits)))
        .collect();
    assert_eq!(corners, vec![(-1.0, -1.0), (1.0, -1.0), (-1.0, 1.0), (1.0, 1.0)]);
    for v in &list.vtx_buffer[cmd.vtx_offset..cmd.vtx_offset + 4] {
        assert_eq!(v.col, bg);
    }
    assert_consistent(&list);
}

#[test]
fn clear_resets_to_one_default_layer() {
    let mut list = DrawList::new();
    list.new_text_layer(color(0.0, 0.0, 0.0, 1.0));
    list.new_layer();
    list.clear();
    assert_eq!(list.cmds, vec![DrawCmd::default()]);
    assert!(list.idx_buffer.is_empty());
    assert!(list.vtx_buffer.is_empty());
}

#[test]
fn clear_twice_equals_clear_once() {
    let mut once = DrawList::new();
    once.new_text_layer(color(0.0, 0.0, 0.0, 1.0));
    let mut twice = once.clone();
    once.clear();
    twice.clear();
    twice.clear();
    assert_eq!(once.cmds, twice.cmds);
    assert_eq!(once.idx_buffer, twice.idx_buffer);
    assert_eq!(once.vtx_buffer, twice.vtx_buffer);
    assert_eq!(twice.cmds.len(), 1);
}

#[test]
fn list_is_usable_after_clear() {
    let mut list = DrawList::new();
    list.new_text_layer(color(0.0, 0.0, 0.0, 1.0));
    list.clear();
    let col = color(1.0, 1.0, 1.0, 1.0);
    let a = list.push_vert(vert(0.0, 0.0, 0.0, 1.0, col));
    assert_eq!(a, 0);
    list.push_elem(a, a, a);
    assert_eq!(list.cmds[0].num_of_elems, 1);
    assert_consistent(&list);
}

#[test]
fn counts_and_bounds_hold_after_mixed_operations() {
    let mut list = DrawList::new();
    let col = color(1.0, 1.0, 1.0, 1.0);
    assert_consistent(&list);
    list.new_text_layer(col);
    assert_consistent(&list);
    let a = list.push_vert(vert(5.0, 5.0, 0.0, 1.0, col));
    list.push_elem(a, 0, 1);
    assert_consistent(&list);
    list.new_layer();
    list.new_layer();
    assert_consistent(&list);
    list.push_elem(a, 2, 3);
    list.new_text_layer(col);
    assert_consistent(&list);
    assert_eq!(total_primitives(&list), 6);
    assert_eq!(list.idx_buffer.len(), 18);
    assert_eq!(list.cmds.len(), 5);
}

#[test]
fn vertices_are_flattened_in_field_order() {
    let mut list = DrawList::new();
    list.push_vert(vert(1.0, 2.0, 3.0, 4.0, color(5.0, 6.0, 7.0, 8.0)));
    list.push_vert(vert(-1.0, -2.0, 0.5, 0.0, color(0.0, 0.0, 1.0 / 255.0, 1.0)));
    let words = list.vertices();
    let floats: Vec<f32> = words.iter().map(|w| f32::from_bits(*w)).collect();
    assert_eq!(
        floats,
        vec![1.0, 2.0, 3.0, 4.0, 5.0, 6.0, 7.0, 8.0, -1.0, -2.0, 0.5, 0.0, 0.0, 0.0, 1.0 / 255.0, 1.0]
    );
}

#[test]
fn vertices_of_empty_list_are_empty() {
    assert!(DrawList::new().vertices().is_empty());
}

#[test]
fn indices_returns_the_index_buffer() {
    let mut list = DrawList::new();
    list.new_text_layer(color(0.0, 0.0, 0.0, 1.0));
    assert_eq!(list.indices(), &[0, 1, 2, 1, 2, 3]);
    assert!(DrawList::new().indices().is_empty());
}
