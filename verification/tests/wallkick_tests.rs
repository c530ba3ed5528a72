use tetrs::block::{Block, Id, Rotation};
use tetrs::field::Field;
use tetrs::rotation_system;
use tetrs::schema::Schema;
use tetrs::utility::BlockHelper;
use tetrs::wallkick::{self, Wallkick};

#[test]
fn test_rotate_with_wallkick() {
    let field = Field::new();
    let mut block = Block::new(Id::S, &field);
    let wk = wallkick::SRS::new();

    block.shift(&field, tetrs::block::Direction::Down);

    block.rotate_with_wallkick(&field, wk, Rotation::R90);
}

fn kick_case(start: &str, target: &str, r: Rotation) {
    let rs = rotation_system::new("srs").unwrap();
    let (field, mut block) = Schema::from_string(start).unwrap().to_state(rs).unwrap();
    let expect = Schema::from_string(target).unwrap();
    block.rotate_with_wallkick(&field, wallkick::SRS::new(), r);
    let rendered = Schema::from_state(&field, &block).unwrap();
    assert!(rendered == expect, "wallkick mismatch:\n{}\nexpected:\n{}", rendered.to_string(), expect.to_string());
}

#[test]
fn wallkick1() {
    kick_case(
        "
                |          |
                |          |
                | @        |
                |#@@##     |
                |#@  #     |
                ------------
            ",
        "
               |          |
               |# @##     |
               |#@@@#     |
               ------------
            ",
        Rotation::R270,
    );
}

#[test]
fn wallkick2() {
    kick_case(
        "
               |          |
               |    ##    |
               |   @ ###  |
               |   @@@####|
               | ###   ###|
               |##    ####|
               |####  ####|
               |##### ####|
               ------------
            ",
        "
               |          |
               |    ##    |
               |     ###  |
               |      ####|
               | ### @ ###|
               |##   @####|
               |####@@####|
               |##### ####|
               ------------
            ",
        Rotation::R270,
    );
}

#[test]
fn wallkick3() {
    // The clockwise turn fits in place, above the groove: the canonical
    // SRS search applies no offset when the trivial one fits.
    kick_case(
        "
               |          |
               |    @     |
               |   @@@    |
               |   #  #   |
               |   #  #   |
               |   #  #   |
               ------------
            ",
        "
               |          |
               |    @     |
               |    @@    |
               |   #@ #   |
               |   #  #   |
               |   #  #   |
               ------------
            ",
        Rotation::R90,
    );
}

#[test]
fn wallkick4() {
    // The anticlockwise turn of this T kicks one cell up and right
    // through the canonical SRS table.
    kick_case(
        "
               |          |
               |#@        |
               |@@@       |
               | ##       |
               |  #       |
               | ##       |
               ------------
            ",
        "
               |  @       |
               |#@@       |
               |  @       |
               | ##       |
               |  #       |
               | ##       |
               ------------
            ",
        Rotation::R270,
    );
}

#[test]
fn wallkick5() {
    // The anticlockwise turn of this J lands two cells up through the
    // canonical SRS kick table.
    kick_case(
        "
               |          |
               |###       |
               |# #       |
               |#         |
               |#  @      |
               |###@      |
               |# @@      |
               ------------
            ",
        "
               |          |
               |###       |
               |# #       |
               |# @@@     |
               |#   @     |
               |###       |
               |#         |
               ------------
            ",
        Rotation::R270,
    );
}

#[test]
fn wallkick6() {
    kick_case(
        "
               |          |
               |###       |
               |# #       |
               |#         |
               |#  @      |
               |###@      |
               |# @@      |
               ------------
            ",
        "
               |          |
               |###       |
               |#@#       |
               |#@@@      |
               |#         |
               |###       |
               |#         |
               ------------
            ",
        Rotation::R90,
    );
}

#[test]
fn wallkick7() {
    kick_case(
        "
               |          |
               |###       |
               |##@@      |
               |#@@       |
               |## ##     |
               |##  #     |
               |### #     |
               ------------
            ",
        "
               |          |
               |###       |
               |##        |
               |#         |
               |##@##     |
               |##@@#     |
               |###@#     |
               ------------
            ",
        Rotation::R270,
    );
}

#[test]
fn test_simple_and_empty_tables() {
    let field = Field::new();
    let block = Block::new(Id::T, &field);
    let e = wallkick::new("empty").unwrap();
    assert_eq!(e.test(&block, &field, Rotation::R90), vec![(0, 0)]);
    let s = wallkick::new("simple").unwrap();
    assert_eq!(s.test(&block, &field, Rotation::R90), vec![(0, 0), (1, 0), (-1, 0)]);
    let d = wallkick::new("dtet").unwrap();
    assert_eq!(
        d.test(&block, &field, Rotation::R90),
        vec![(0, 0), (1, 0), (-1, 0), (1, 0), (1, 1), (-1, 1)]
    );
    assert!(wallkick::new("tgm").is_ok());
    assert!(wallkick::new("tgm3").is_ok());
    assert!(wallkick::new("what").is_err());
    let o = Block::new(Id::O, &field);
    assert_eq!(Wallkick::Srs.test(&o, &field, Rotation::R90), vec![(0, 0)]);
}

#[test]
fn test_tgm_suppresses_i() {
    let field = Field::new();
    let block = Block::new(Id::I, &field);
    let t = wallkick::new("tgm").unwrap();
    assert_eq!(t.test(&block, &field, Rotation::R90), vec![(0, 0)]);
}

#[test]
fn test_block_helper_trait() {
    let field = Field::new();
    let mut block = Block::new(Id::T, &field);
    let turned = BlockHelper::rotate_with_wallkick(
        &mut block,
        &field,
        wallkick::new("srs").unwrap(),
        Rotation::R90,
    );
    assert!(turned);
    assert_eq!(block.r, Rotation::R90);
    // The guarded interface refuses an SRS half-turn outright.
    let refused = BlockHelper::rotate_with_wallkick(
        &mut block,
        &field,
        wallkick::new("srs").unwrap(),
        Rotation::R180,
    );
    assert!(!refused);
}

#[test]
fn test_tgm3_i_floorkick() {
    let rs = rotation_system::new("srs").unwrap();
    let (field, block) = Schema::from_string(
        "
            |          |
            |@@@@      |
            |####      |
            ------------
        ",
    )
    .unwrap()
    .to_state(rs)
    .unwrap();
    let t3 = wallkick::new("tgm3").unwrap();
    // Grounded I pieces may only floorkick upward.
    assert_eq!(t3.test(&block, &field, Rotation::R90), vec![(0, 0), (0, -1), (0, -2)]);

    // An airborne I gets the rightward-then-left search instead.
    let free = Field::new();
    let airborne = Block::new(Id::I, &free);
    assert_eq!(
        t3.test(&airborne, &free, Rotation::R90),
        vec![(0, 0), (1, 0), (2, 0), (-1, 0)]
    );

    // The bare floor counts as support: an I resting on the bottom row
    // of an empty field floorkicks too.
    let mut resting = Block::new(Id::I, &free);
    resting.shift_extend(&free, tetrs::block::Direction::Down);
    assert_eq!(t3.test(&resting, &free, Rotation::R90), vec![(0, 0), (0, -1), (0, -2)]);
}
