use chroma::geometry::Fraction;
use chroma::tiles::{quad_indices, sprite_quad, TileSet};

#[test]
fn add_tile_marks_dirty() {
    let mut tiles = TileSet::new(128, 112, 5);
    assert!(!tiles.needs_upload());
    tiles.add_tile((32, 16), 2);
    assert!(tiles.needs_upload());
    assert_eq!(tiles.instances.len(), 1);
    assert_eq!(tiles.instances[0].x, 32);
    assert_eq!(tiles.instances[0].y, 16);
    assert_eq!(tiles.instances[0].sprite_index, 2);
}

#[test]
fn move_tile_keeps_sprite() {
    let mut tiles = TileSet::new(128, 112, 5);
    tiles.add_tile((0, 0), 3);
    let _ = tiles.configure_instances();
    assert!(!tiles.needs_upload());
    tiles.move_tile((64, 48), 0);
    assert!(tiles.needs_upload());
    assert_eq!(tiles.instances[0].x, 64);
    assert_eq!(tiles.instances[0].y, 48);
    assert_eq!(tiles.instances[0].sprite_index, 3);
}

#[test]
fn configure_instances_normalizes_positions() {
    let mut tiles = TileSet::new(128, 112, 5);
    tiles.add_tile((32, 16), 2);
    tiles.add_tile((0, 112), 0);
    let raws = tiles.configure_instances();
    assert!(!tiles.needs_upload());
    assert_eq!(raws.len(), 2);
    // position x maps to 2 * 32 / 128, uv to 2 / 5
    assert_eq!(raws[0].x, Fraction { num: 64, den: 128 });
    assert_eq!(raws[0].y, Fraction { num: 32, den: 112 });
    assert_eq!(raws[0].u, Fraction { num: 2, den: 5 });
    assert_eq!(raws[0].v, Fraction { num: 0, den: 1 });
    assert_eq!(raws[1].x, Fraction { num: 0, den: 128 });
    assert_eq!(raws[1].y, Fraction { num: 224, den: 112 });
    assert_eq!(raws[1].u, Fraction { num: 0, den: 5 });
}

#[test]
fn sprite_quad_matches_layout() {
    let quad = sprite_quad(128, 112, 32, 32, 5);
    assert_eq!(quad.len(), 4);
    // positions are p / screen - 2, kept as (p - 2 * screen) / screen
    assert_eq!(quad[0].x, Fraction { num: -256, den: 128 });
    assert_eq!(quad[0].y, Fraction { num: 32 - 224, den: 112 });
    assert_eq!(quad[0].u, Fraction { num: 0, den: 5 });
    assert_eq!(quad[0].v, Fraction { num: 0, den: 1 });
    assert_eq!(quad[1].y, Fraction { num: -224, den: 112 });
    assert_eq!(quad[1].v, Fraction { num: 1, den: 1 });
    assert_eq!(quad[2].x, Fraction { num: 32 - 256, den: 128 });
    assert_eq!(quad[2].u, Fraction { num: 1, den: 5 });
    assert_eq!(quad[3].u, Fraction { num: 1, den: 5 });
    assert_eq!(quad[3].v, Fraction { num: 0, den: 1 });
}

#[test]
fn quad_index_list() {
    assert_eq!(quad_indices(), vec![0, 1, 2, 0, 2, 3]);
}
