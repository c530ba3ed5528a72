use tetrs::block::{Block, BlockOptions, Direction, Id, Rotation};
use tetrs::field::Field;

#[test]
fn test_shift() {
    let field = Field::new();
    let mut block = Block::new(Id::Z, &field);

    let x = block.x;
    block.shift(&field, Direction::Left);
    assert_eq!(x - 1, block.x);

    block.shift_extend(&field, Direction::Left);
    assert_eq!(0, block.x);
}

#[test]
fn test_rotation() {
    let field = Field::new();
    let mut block = Block::new(Id::S, &field);

    block.shift(&field, Direction::Down);
    block.shift(&field, Direction::Down);

    block.rotate(&field, Rotation::R90);
    assert_eq!(block.r, Rotation::R90);

    block.rotate(&field, Rotation::R90);
    assert_eq!(block.r, Rotation::R180);

    block.rotate(&field, Rotation::R270);
    assert_eq!(block.r, Rotation::R90);
}

#[test]
fn test_spawn_and_shift() {
    let field = Field::new();
    let mut block = Block::new(Id::Z, &field);
    assert_eq!(block.x, 4);

    assert!(block.shift(&field, Direction::Left));
    assert_eq!(block.x, 3);

    block.shift_extend(&field, Direction::Left);
    assert_eq!(block.x, 0);
}

#[test]
fn test_ghost_idempotent() {
    let field = Field::new();
    let block = Block::new(Id::T, &field);
    let g1 = block.ghost(&field);
    let g2 = g1.ghost(&field);
    assert_eq!(g1.x, g2.x);
    assert_eq!(g1.y, g2.y);
    assert_eq!(g1.id, g2.id);
    assert_eq!(g1.r, g2.r);
}

#[test]
fn test_shift_reversible() {
    let field = Field::new();
    let mut block = Block::new(Id::L, &field);
    let x0 = block.x;
    assert!(block.shift(&field, Direction::Left));
    assert!(block.shift(&field, Direction::Right));
    assert_eq!(block.x, x0);
}

#[test]
fn test_rotate_round_trip() {
    let field = Field::new();
    let mut block = Block::new(Id::J, &field);
    block.shift(&field, Direction::Down);
    let (x0, y0, r0) = (block.x, block.y, block.r);
    assert!(block.rotate(&field, Rotation::R90));
    assert!(block.rotate(&field, Rotation::R270));
    assert_eq!((block.x, block.y, block.r), (x0, y0, r0));
}

#[test]
fn test_with_options_overrides() {
    let field = Field::new();
    let block = Block::with_options(
        Id::I,
        &field,
        BlockOptions { x: Some(3), y: Some(4), ..Default::default() },
    );
    assert_eq!(block.x, 3);
    assert_eq!(block.y, 4);
    assert_eq!(block.r, Rotation::R0);
}

#[test]
fn test_occupies() {
    let field = Field::new();
    let block = Block::new(Id::O, &field);
    // O piece at spawn (4, 0): offsets (1,0),(1,1),(2,0),(2,1).
    assert!(block.occupies((5, 0)));
    assert!(block.occupies((6, 1)));
    assert!(!block.occupies((4, 0)));
}

#[test]
fn test_index_round_trip() {
    for i in 0..8 {
        let id = Id::from_index(i).unwrap();
        assert_eq!(id.to_index(), i);
    }
    assert!(Id::from_index(8).is_none());
    assert_eq!(Id::variants().len(), 7);
    assert_eq!(Rotation::R270.clockwise(), Rotation::R0);
    assert_eq!(Rotation::R0.anticlockwise(), Rotation::R270);
    assert_eq!(Direction::variants().len(), 4);
}

#[test]
fn test_rotation_sequence() {
    let field = Field::new();
    let mut block = Block::new(Id::S, &field);
    block.shift(&field, Direction::Down);
    block.shift(&field, Direction::Down);

    block.rotate(&field, Rotation::R90);
    assert_eq!(block.r, Rotation::R90);
    block.rotate(&field, Rotation::R90);
    assert_eq!(block.r, Rotation::R180);
    block.rotate(&field, Rotation::R90);
    assert_eq!(block.r, Rotation::R270);

    block.rotate(&field, Rotation::R270);
    assert_eq!(block.r, Rotation::R180);
}
