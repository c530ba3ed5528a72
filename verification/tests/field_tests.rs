use tetrs::block::{Block, BlockOptions, Direction, Id, Rotation};
use tetrs::field::{Field, FieldOptions};
use tetrs::rotation_system;
use tetrs::schema::Schema;
use tetrs::Error;

#[test]
fn test_get_out_of_bounds() {
    let field = Field::new();
    assert_eq!(field.get((3, 5)), Ok(Id::Empty));
    assert_eq!(field.get((10, 0)), Err(Error::OutOfBounds));
    assert_eq!(field.get((0, 25)), Err(Error::OutOfBounds));
}

#[test]
fn test_occupies_out_of_bounds_is_empty() {
    let field = Field::new();
    assert!(!field.occupies((100, 100)));
}

#[test]
fn test_clear_lines_empty() {
    let mut field = Field::new();
    assert_eq!(field.clear_lines(), 0);
}

#[test]
fn test_line_clear() {
    // A 4-wide, 5-tall field whose bottom row is filled except for the
    // first column; the parsed O block only serves to build the field.
    let schema = Schema::from_string(
        "
            | @@ |
            | @@ |
            |    |
            |    |
            | ###|
            ------
        ",
    )
    .unwrap();
    let (mut field, _) = schema.to_state(rotation_system::new("srs").unwrap()).unwrap();
    assert_eq!(field.width, 4);
    assert_eq!(field.height, 5);

    // Drop a vertical I down the first column and freeze it.
    let mut block = Block::with_options(
        Id::I,
        &field,
        BlockOptions { x: Some(-2), y: Some(0), rotation: Rotation::R90, ..Default::default() },
    );
    block.shift_extend(&field, Direction::Down);
    field.freeze(block);

    assert_eq!(field.clear_lines(), 1);
    for x in 0..4 {
        assert_eq!(field.get((x, 0)), Ok(Id::Empty));
    }
    // The old row 3 (holding one cell of the I) is now row 4.
    assert_eq!(field.get((0, 4)), Ok(Id::I));
    assert_eq!(field.get((1, 4)), Ok(Id::Empty));
    assert_eq!(field.get((2, 4)), Ok(Id::Empty));
    assert_eq!(field.get((3, 4)), Ok(Id::Empty));
}

#[test]
fn test_with_options_dimensions() {
    let field = Field::with_options(FieldOptions { width: 14, ..Default::default() });
    assert_eq!(field.width, 14);
    assert_eq!(field.height, 25);
    assert_eq!(field.hidden, 3);
    assert_eq!(field.spawn, (4, 0));
}
