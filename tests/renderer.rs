use tile_scene::geometry::{add_points, color, extent, point, Vertex};
use tile_scene::renderer::Renderer;

fn v(x: i64, y: i64, c: tile_scene::geometry::Color) -> Vertex {
    Vertex { x, y, color: c }
}

#[test]
fn empty_batch_exports_nothing() {
    let r = Renderer::new(50);
    let b = r.collect_buffers();
    assert!(b.vertices.is_empty());
    assert!(b.indices.is_empty());
    assert_eq!(b.num_of_indices, 0);
    assert_eq!(r.quad_count(), 0);
    assert_eq!(r.quad_size(), 50);
}

#[test]
fn created_quad_has_four_corners_and_two_triangles() {
    let mut r = Renderer::new(50);
    let green = color(0, 255, 0);
    let slot = r.create_quad(point(400, 300), green);
    assert_eq!(slot, 0);
    let b = r.collect_buffers();
    assert_eq!(
        b.vertices,
        vec![v(400, 300, green), v(450, 300, green), v(400, 350, green), v(450, 350, green)]
    );
    assert_eq!(b.indices, vec![0, 1, 2, 2, 1, 3]);
    assert_eq!(b.num_of_indices, 6);
}

#[test]
fn block_spans_its_cells() {
    let mut r = Renderer::new(50);
    let white = color(255, 255, 255);
    r.create_quad(point(0, 0), white);
    let slot = r.create_block(point(200, 230), extent(6, 1), white);
    assert_eq!(slot, 1);
    let b = r.collect_buffers();
    assert_eq!(b.vertices.len(), 8);
    assert_eq!(
        b.vertices[4..8].to_vec(),
        vec![v(200, 230, white), v(500, 230, white), v(200, 280, white), v(500, 280, white)]
    );
    assert_eq!(b.indices, vec![0, 1, 2, 2, 1, 3, 4, 5, 6, 6, 5, 7]);
    assert_eq!(b.num_of_indices, 12);
}

#[test]
fn slots_increase_and_keep_their_quads() {
    let mut r = Renderer::new(10);
    let mut last: Option<usize> = None;
    for k in 0..20 {
        let s = r.create_block(point(k * 10, -k), extent(1 + k as u16, 2), color(k as u8, 0, 0));
        if let Some(p) = last {
            assert!(s > p);
        }
        last = Some(s);
    }
    r.update_quad_data(7, point(3, 4));
    for k in 0..20usize {
        let q = r.quad(k);
        assert_eq!(q.extent, extent(1 + k as u16, 2));
        assert_eq!(q.color, color(k as u8, 0, 0));
        if k == 7 {
            assert_eq!(q.pos, point(73, -3));
        } else {
            assert_eq!(q.pos, point(k as i32 * 10, -(k as i32)));
        }
    }
    let b = r.collect_buffers();
    assert_eq!(b.vertices.len(), 80);
    assert_eq!(b.indices.len(), 120);
    assert_eq!(b.num_of_indices, 120);
    assert_eq!(b.indices[42..48].to_vec(), vec![28, 29, 30, 30, 29, 31]);
}

#[test]
fn translate_matches_set_position() {
    let mut a = Renderer::new(50);
    let mut b = Renderer::new(50);
    for r in [&mut a, &mut b] {
        r.create_quad(point(400, 300), color(0, 255, 0));
        r.create_block(point(200, 230), extent(6, 1), color(255, 255, 255));
    }
    let d = point(-5, -3);
    a.update_quad_data(0, d);
    let old = b.quad(0).pos;
    b.change_quad_data(0, add_points(old, d));
    assert_eq!(a.quad(0).pos, point(395, 297));
    assert_eq!(a.quad(0).pos, b.quad(0).pos);
    assert_eq!(a.collect_buffers().vertices, b.collect_buffers().vertices);
    assert_eq!(a.collect_buffers().indices, b.collect_buffers().indices);
}

#[test]
fn moving_a_block_keeps_its_size() {
    let mut r = Renderer::new(50);
    let white = color(255, 255, 255);
    r.create_block(point(200, 230), extent(6, 1), white);
    r.update_quad_data(0, point(10, -20));
    assert_eq!(
        r.collect_buffers().vertices,
        vec![v(210, 210, white), v(510, 210, white), v(210, 260, white), v(510, 260, white)]
    );
    r.change_quad_data(0, point(-1000, 5));
    assert_eq!(
        r.collect_buffers().vertices,
        vec![v(-1000, 5, white), v(-700, 5, white), v(-1000, 55, white), v(-700, 55, white)]
    );
}

#[test]
fn corners_beyond_i32_are_kept_exactly() {
    let mut r = Renderer::new(65535);
    let c = color(1, 2, 3);
    r.create_block(point(i32::MAX, i32::MIN), extent(65535, 1), c);
    let b = r.collect_buffers();
    let right = i32::MAX as i64 + 65535 * 65535;
    let top = i32::MIN as i64 + 65535;
    assert_eq!(
        b.vertices,
        vec![
            v(i32::MAX as i64, i32::MIN as i64, c),
            v(right, i32::MIN as i64, c),
            v(i32::MAX as i64, top, c),
            v(right, top, c),
        ]
    );
}

#[test]
fn largest_batch_fills_u16_indices() {
    let mut r = Renderer::new(1);
    for _ in 0..tile_scene::renderer::MAX_QUADS {
        r.create_quad(point(0, 0), color(0, 0, 0));
    }
    let b = r.collect_buffers();
    assert_eq!(b.num_of_indices, 6 * 16384);
    assert_eq!(b.indices[b.indices.len() - 6..].to_vec(), vec![65532, 65533, 65534, 65534, 65533, 65535]);
}
