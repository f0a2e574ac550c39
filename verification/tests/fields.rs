use bntui::cube::{corner, edge, Corner, CORNERS, EDGES};
use bntui::field::{place_stars, plasma_glyph, star_glyph};

#[test]
fn the_cube_has_eight_corners() {
    let expected = [
        (-1, -1, -1),
        (1, -1, -1),
        (1, 1, -1),
        (-1, 1, -1),
        (-1, -1, 1),
        (1, -1, 1),
        (1, 1, 1),
        (-1, 1, 1),
    ];
    assert_eq!(CORNERS, 8);
    for (i, (x, y, z)) in expected.iter().enumerate() {
        assert_eq!(corner(i), Corner { x: *x, y: *y, z: *z });
    }
}

#[test]
fn the_cube_has_twelve_edges() {
    let expected = [
        (0, 1),
        (1, 2),
        (2, 3),
        (3, 0),
        (4, 5),
        (5, 6),
        (6, 7),
        (7, 4),
        (0, 4),
        (1, 5),
        (2, 6),
        (3, 7),
    ];
    assert_eq!(EDGES, 12);
    for (k, e) in expected.iter().enumerate() {
        assert_eq!(edge(k), *e);
    }
}

#[test]
fn every_edge_runs_along_one_axis() {
    for k in 0..EDGES {
        let (a, b) = edge(k);
        let (a, b) = (corner(a), corner(b));
        let apart = (a.x != b.x) as u8 + (a.y != b.y) as u8 + (a.z != b.z) as u8;
        assert_eq!(apart, 1);
    }
}

#[test]
fn glyphs_of_stars_and_plasma() {
    let stars: String = (0..6).map(star_glyph).collect();
    assert_eq!(stars, ".·:+*#");
    let plasma: String = (0..10).map(plasma_glyph).collect();
    assert_eq!(plasma, " ·∙:░▒▓█▓░");
}

#[test]
fn the_first_star_at_a_cell_wins() {
    let stars = vec![(1, 0), (2, 1), (1, 0), (0, 1), (2, 1), (1, 0)];
    let cells = place_stars(3, 2, &stars);
    assert_eq!(cells, vec![None, Some(0), None, Some(3), None, Some(1)]);
}

#[test]
fn stars_outside_the_field_are_not_shown() {
    let stars = vec![(3, 0), (0, 2), (65535, 65535), (2, 1)];
    let cells = place_stars(3, 2, &stars);
    assert_eq!(cells, vec![None, None, None, None, None, Some(3)]);
    assert!(place_stars(0, 5, &stars).is_empty());
    assert!(place_stars(5, 0, &stars).is_empty());
    assert_eq!(place_stars(2, 2, &vec![]), vec![None; 4]);
}
