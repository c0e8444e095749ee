use drawy::{Color, ShapeBatch, Vertex, COORD_UNIT};

#[test]
fn color_new_keeps_channels() {
    let c = Color::new(10, 20, 30, 40);
    assert_eq!(c, Color { r: 10, g: 20, b: 30, a: 40 });
}

#[test]
fn color_palette_values() {
    assert_eq!(Color::clear(), Color { r: 0, g: 0, b: 0, a: 0 });
    assert_eq!(Color::black(), Color { r: 0, g: 0, b: 0, a: 255 });
    assert_eq!(Color::white(), Color { r: 255, g: 255, b: 255, a: 255 });
    assert_eq!(Color::magenta(), Color { r: 255, g: 0, b: 255, a: 255 });
    assert_eq!(Color::blue_teal(), Color { r: 0, g: 128, b: 128, a: 255 });
}

#[test]
fn color_to_rgba8_is_the_four_channels() {
    let bytes = Color::new(1, 2, 3, 4).to_rgba8();
    assert_eq!(bytes, vec![1, 2, 3, 4]);
    assert_eq!(Color::magenta().to_rgba8(), vec![255, 0, 255, 255]);
}

#[test]
fn vertex_from_viewport_and_getters() {
    let v = Vertex::from_viewport(-7, 9);
    assert_eq!(v.x(), -7);
    assert_eq!(v.y(), 9);
}

#[test]
fn vertex_from_pixel_scales_into_the_viewport() {
    let v = Vertex::from_pixel(50, 25, 100, 100);
    assert_eq!(v.x(), COORD_UNIT / 2);
    assert_eq!(v.y(), COORD_UNIT / 4);
    let corner = Vertex::from_pixel(100, 0, 100, 50);
    assert_eq!(corner.x(), COORD_UNIT);
    assert_eq!(corner.y(), 0);
}

#[test]
fn empty_batch_holds_nothing() {
    let batch = ShapeBatch::default();
    assert!(batch.vertices.is_empty());
    assert!(batch.indices.is_empty());
}

#[test]
fn add_triangle_appends_vertices_and_indices() {
    let mut batch = ShapeBatch::default();
    let a = Vertex::from_viewport(0, 0);
    let b = Vertex::from_viewport(1, 0);
    let c = Vertex::from_viewport(0, 1);
    batch.add_triangle([a, b, c]);
    assert_eq!(batch.vertices, vec![a, b, c]);
    assert_eq!(batch.indices, vec![0, 1, 2]);
}

#[test]
fn second_triangle_continues_the_indices() {
    let mut batch = ShapeBatch::default();
    let a = Vertex::from_viewport(0, 0);
    let b = Vertex::from_viewport(1, 0);
    let c = Vertex::from_viewport(0, 1);
    batch.add_triangle([a, b, c]);
    batch.add_triangle([b, c, a]);
    assert_eq!(batch.vertices.len(), 6);
    assert_eq!(batch.indices, vec![0, 1, 2, 3, 4, 5]);
}

#[test]
fn add_square_pushes_the_four_corners() {
    let mut batch = ShapeBatch::default();
    batch.add_square(Vertex::from_viewport(10, 20), 4, 6);
    assert_eq!(
        batch.vertices,
        vec![
            Vertex { x: 8, y: 17 },
            Vertex { x: 12, y: 17 },
            Vertex { x: 8, y: 23 },
            Vertex { x: 12, y: 23 },
        ]
    );
    assert_eq!(batch.indices, vec![0, 1, 2, 2, 1, 3]);
}

#[test]
fn square_after_triangle_indexes_its_own_corners() {
    let mut batch = ShapeBatch::default();
    let a = Vertex::from_viewport(0, 0);
    batch.add_triangle([a, a, a]);
    batch.add_square(Vertex::from_viewport(0, 0), 2, 2);
    assert_eq!(batch.indices, vec![0, 1, 2, 3, 4, 5, 5, 4, 6]);
    assert_eq!(batch.vertices.len(), 7);
}

#[test]
fn second_square_indexes_its_own_corners() {
    let mut batch = ShapeBatch::default();
    batch.add_square(Vertex::from_viewport(0, 0), 2, 2);
    batch.add_square(Vertex::from_viewport(10, 10), 2, 2);
    // the second square's corners are vertices 4..=7, and every index stays
    // within the eight queued vertices
    assert_eq!(batch.indices, vec![0, 1, 2, 2, 1, 3, 4, 5, 6, 6, 5, 7]);
    assert_eq!(batch.vertices.len(), 8);
    assert!(batch.indices.iter().all(|&i| (i as usize) < batch.vertices.len()));
}

#[test]
fn triangle_after_square_indexes_its_own_vertices() {
    let mut batch = ShapeBatch::default();
    batch.add_square(Vertex::from_viewport(0, 0), 2, 2);
    let a = Vertex::from_viewport(7, 8);
    let b = Vertex::from_viewport(9, 10);
    let c = Vertex::from_viewport(11, 12);
    batch.add_triangle([a, b, c]);
    assert_eq!(batch.indices, vec![0, 1, 2, 2, 1, 3, 4, 5, 6]);
    assert_eq!(batch.vertices[4..], [a, b, c]);
}

#[test]
fn zero_size_square_collapses_to_the_center() {
    let mut batch = ShapeBatch::default();
    let c = Vertex::from_viewport(5, 5);
    batch.add_square(c, 0, 0);
    assert_eq!(batch.vertices, vec![c, c, c, c]);
}
