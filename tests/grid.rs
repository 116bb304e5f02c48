use cone::{char_to_uvs, create_frame, Color, Frame, GridPoint, Uv};

fn uv(u: u32, v: u32) -> Uv {
    Uv { u, v }
}

fn cell_is_blank(frame: &Frame, x: i32, y: i32) -> bool {
    (0..4).all(|k| frame.vertex(x, y, k).unwrap().uv == uv(0, 0))
}

#[test]
fn uvs_of_letter() {
    assert_eq!(char_to_uvs('A'), [uv(1, 4), uv(1, 5), uv(2, 4), uv(2, 5)]);
}

#[test]
fn uvs_of_last_slot_reach_atlas_edge() {
    assert_eq!(char_to_uvs('\u{ff}'), [uv(15, 15), uv(15, 16), uv(16, 15), uv(16, 16)]);
}

#[test]
fn uvs_of_unmapped_chars_use_fallback() {
    let fallback = [uv(1, 0), uv(1, 1), uv(2, 0), uv(2, 1)];
    assert_eq!(char_to_uvs('\u{1}'), fallback);
    assert_eq!(char_to_uvs('\u{100}'), fallback);
    assert_eq!(char_to_uvs('\u{1F600}'), fallback);
}

#[test]
fn uvs_stay_inside_atlas() {
    for code in 0u32..600 {
        if let Some(ch) = char::from_u32(code) {
            for corner in char_to_uvs(ch) {
                assert!(corner.u <= 16 && corner.v <= 16);
            }
        }
    }
}

#[test]
fn new_frame_geometry() {
    let frame = create_frame(2, 3);
    assert_eq!(frame.width(), 2);
    assert_eq!(frame.height(), 3);
    assert_eq!(frame.vertices().len(), 24);
    assert_eq!(frame.indices().len(), 36);
    assert_eq!(&frame.indices()[0..6], &[0, 1, 3, 2, 0, 3]);
    assert_eq!(&frame.indices()[30..36], &[20, 21, 23, 22, 20, 23]);
    let corners: Vec<GridPoint> = (0..4).map(|k| frame.vertex(1, 2, k).unwrap().position).collect();
    assert_eq!(
        corners,
        vec![
            GridPoint { x: 1, y: 2 },
            GridPoint { x: 1, y: 3 },
            GridPoint { x: 2, y: 2 },
            GridPoint { x: 2, y: 3 },
        ]
    );
    assert_eq!(frame.vertices()[20].position, GridPoint { x: 1, y: 2 });
    for v in frame.vertices() {
        assert_eq!(v.uv, uv(0, 0));
    }
}

#[test]
fn vertex_outside_grid_is_none() {
    let frame = create_frame(2, 3);
    assert!(frame.vertex(2, 0, 0).is_none());
    assert!(frame.vertex(0, 3, 0).is_none());
    assert!(frame.vertex(-1, 0, 0).is_none());
    assert!(frame.vertex(0, 0, 4).is_none());
}

#[test]
fn put_char_writes_glyph_and_color() {
    let mut frame = create_frame(4, 3);
    let color = Color::rgba(10, 20, 30, 40);
    frame.put_char(3, 1, 'A', color);
    let uvs = char_to_uvs('A');
    for k in 0..4 {
        let v = frame.vertex(3, 1, k).unwrap();
        assert_eq!(v.uv, uvs[k]);
        assert_eq!(v.color, color);
    }
    assert_eq!(frame.vertices()[4 * (3 * 3 + 1)].uv, uv(1, 4));
    assert!(cell_is_blank(&frame, 2, 1));
    assert!(cell_is_blank(&frame, 3, 0));
}

#[test]
fn put_char_outside_changes_nothing() {
    let mut frame = create_frame(4, 3);
    frame.put_char(1, 1, 'x', Color::white());
    let before = frame.vertices().clone();
    frame.put_char(4, 0, 'A', Color::white());
    frame.put_char(0, 3, 'A', Color::white());
    frame.put_char(-1, 0, 'A', Color::white());
    frame.put_char(0, -1, 'A', Color::white());
    frame.put_char(i32::MAX, i32::MIN, 'A', Color::white());
    assert_eq!(frame.vertices(), &before);
}

#[test]
fn clear_twice_equals_clear_once() {
    let mut frame = create_frame(5, 2);
    frame.put_str(0, 0, "hello", Color::rgb(1, 2, 3));
    frame.clear();
    let once = frame.vertices().clone();
    frame.clear();
    assert_eq!(frame.vertices(), &once);
    for v in frame.vertices() {
        assert_eq!(v.uv, uv(0, 0));
    }
    assert_eq!(frame.vertex(0, 0, 0).unwrap().color, Color::rgb(1, 2, 3));
    assert_eq!(frame.vertex(4, 1, 3).unwrap().position, GridPoint { x: 5, y: 2 });
}

#[test]
fn put_str_equals_two_put_chars() {
    let color = Color::rgb(200, 100, 50);
    let mut a = create_frame(6, 4);
    let mut b = create_frame(6, 4);
    a.put_str(2, 3, "AB", color);
    b.put_char(2, 3, 'A', color);
    b.put_char(3, 3, 'B', color);
    assert_eq!(a.vertices(), b.vertices());
    let mut c = create_frame(6, 4);
    let mut d = create_frame(6, 4);
    c.put_str(5, 0, "AB", color);
    d.put_char(5, 0, 'A', color);
    d.put_char(6, 0, 'B', color);
    assert_eq!(c.vertices(), d.vertices());
}

#[test]
fn put_str_drops_characters_past_the_edge() {
    let mut frame = create_frame(80, 2);
    frame.put_str(78, 0, "abcd", Color::white());
    assert_eq!(frame.vertex(78, 0, 0).unwrap().uv, char_to_uvs('a')[0]);
    assert_eq!(frame.vertex(79, 0, 0).unwrap().uv, char_to_uvs('b')[0]);
    assert!(cell_is_blank(&frame, 0, 1));
    let before = frame.vertices().clone();
    frame.put_str(i32::MAX - 1, 0, "xyz", Color::white());
    frame.put_str(-3, 1, "abc", Color::white());
    assert_eq!(frame.vertices(), &before);
}

#[test]
fn put_str_starting_left_of_grid_shows_the_rest() {
    let mut frame = create_frame(4, 1);
    frame.put_str(-2, 0, "abcd", Color::white());
    assert_eq!(frame.vertex(0, 0, 0).unwrap().uv, char_to_uvs('c')[0]);
    assert_eq!(frame.vertex(1, 0, 0).unwrap().uv, char_to_uvs('d')[0]);
    assert!(cell_is_blank(&frame, 2, 0));
}

#[test]
fn hello_world_on_cleared_grid() {
    let mut frame = create_frame(80, 50);
    frame.clear();
    frame.put_str(34, 25, "Hello world!", Color::white());
    for x in 0..80 {
        for y in 0..50 {
            let written = y == 25 && (34..46).contains(&x);
            for k in 0..4 {
                let v = frame.vertex(x, y, k).unwrap();
                if written {
                    let ch = "Hello world!".chars().nth((x - 34) as usize).unwrap();
                    assert_eq!(v.uv, char_to_uvs(ch)[k]);
                    assert_ne!(v.uv, uv(0, 0));
                    assert_eq!(v.color, Color::white());
                } else {
                    assert_eq!(v.uv, uv(0, 0));
                }
            }
        }
    }
}

#[test]
fn colors() {
    assert_eq!(Color::white(), Color { r: 255, g: 255, b: 255, a: 255 });
    assert_eq!(Color::black(), Color { r: 0, g: 0, b: 0, a: 255 });
    assert_eq!(Color::rgb(1, 2, 3), Color { r: 1, g: 2, b: 3, a: 255 });
    assert_eq!(Color::rgba(1, 2, 3, 4), Color { r: 1, g: 2, b: 3, a: 4 });
}
