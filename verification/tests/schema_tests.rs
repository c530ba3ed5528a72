use tetrs::block::{self, Direction, Rotation};
use tetrs::rotation_system;
use tetrs::schema::Schema;
use tetrs::Error;

#[test]
fn test_from_string1() {
    let _schema = Schema::from_string(
        "
                |          |
                |  # @     |
                | ##@@#    |
                |##  @#    |
                ------------
            ",
    )
    .unwrap();
}

#[test]
fn test_from_string_uneven() {
    let r = Schema::from_string(
        "
                |          |
                | # @     |
                | ##@@#    |
                |##  @#    |
                ------------
            ",
    );
    assert_eq!(r.err(), Some(Error::UnevenRows));
}

#[test]
fn test_from_string_empty() {
    let r = Schema::from_string(
        "
                        |
                      ",
    );
    assert_eq!(r.err(), Some(Error::EmptyInput));
}

#[test]
fn test_from_state() {
    let schema = Schema::from_string(
        "
                |          |
                |  @       |
                | @@@      |
                ------------
            ",
    )
    .unwrap();

    let (field, mut block) = schema.to_state(rotation_system::new("srs").unwrap()).unwrap();
    block.shift(&field, Direction::Left);

    assert_eq!(
        Schema::from_state(&field, &block).unwrap(),
        Schema::from_string(
            "
                       |          |
                       | @        |
                       |@@@       |
                       ------------
                   ",
        )
        .unwrap()
    );
}

#[test]
fn test_from_string_to_state() {
    let schema = Schema::from_string(
        "
                |          |
                | # @      |
                |##@@@     |
                ------------
            ",
    )
    .unwrap();

    let (field, block) = schema.to_state(rotation_system::new("srs").unwrap()).unwrap();

    assert_eq!(block.id, block::Id::T);
    assert_eq!(block.r, Rotation::R0);
    assert_eq!(block.x, 2);
    assert_eq!(block.y, (field.height - 2) as i32);

    assert_eq!(field.data[field.height - 1][0], block::Id::I);
    assert_eq!(field.data[field.height - 1][1], block::Id::I);
    assert_eq!(field.data[field.height - 2][1], block::Id::I);
}

#[test]
fn test_to_state_missing_block() {
    let schema = Schema::from_string(
        "
                |   |
                | # |
                ----
            ",
    )
    .unwrap();
    let r = schema.to_state(rotation_system::new("srs").unwrap());
    assert_eq!(r.err(), Some(Error::MissingBlock));
}

#[test]
fn test_to_state_unknown_character() {
    let schema = Schema::from_string(
        "
                | ?  |
                |@@@@|
                -----
            ",
    )
    .unwrap();
    let r = schema.to_state(rotation_system::new("srs").unwrap());
    assert_eq!(r.err(), Some(Error::UnknownCharacter));
}

#[test]
fn test_to_state_unmatched_block() {
    let schema = Schema::from_string(
        "
                |     |
                |@    |
                |    @|
                ------
            ",
    )
    .unwrap();
    let r = schema.to_state(rotation_system::new("srs").unwrap());
    assert_eq!(r.err(), Some(Error::UnmatchedBlock));
}

#[test]
fn test_round_trip() {
    let text = "
                |          |
                |  # @     |
                | ##@@     |
                |##  @#    |
                ------------
            ";
    let schema = Schema::from_string(text).unwrap();
    let rs = rotation_system::new("srs").unwrap();
    let (field, block) = schema.to_state(rs).unwrap();
    let rendered = Schema::from_state(&field, &block).unwrap();
    assert_eq!(rendered, schema);
    let (field2, block2) = rendered.to_state(rs).unwrap();
    assert_eq!(block2.id, block.id);
    assert_eq!(block2.r, block.r);
    assert_eq!(block2.x, block.x);
    assert_eq!(block2.y, block.y);
    for y in 0..field.height {
        for x in 0..field.width {
            assert_eq!(field.get((x, y)), field2.get((x, y)));
        }
    }
}

#[test]
fn test_to_string() {
    let schema = Schema::from_string(
        "
                |# @@|
                | @@ |
                -----
            ",
    )
    .unwrap();
    let s = schema.to_string();
    assert_eq!(s, "|# @@|\n| @@ |\n------");
}
