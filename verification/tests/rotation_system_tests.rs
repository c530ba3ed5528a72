use tetrs::block::{Id, Rotation};
use tetrs::rotation_system::{self, RotationSystem};
use tetrs::Error;

#[test]
fn test_offset_to_first1() {
    let rs = rotation_system::SRS::new();

    assert_eq!((1, 0), rs.minp(Id::T, Rotation::R0));
    assert_eq!((1, 0), rs.minp(Id::T, Rotation::R90));
    assert_eq!((0, 1), rs.minp(Id::T, Rotation::R180));
    assert_eq!((1, 0), rs.minp(Id::T, Rotation::R270));

    assert_eq!((2, 0), rs.minp(Id::I, Rotation::R90));
    assert_eq!((0, 0), rs.minp(Id::Z, Rotation::R0));
}

#[test]
fn mod_test_offset_to_first1() {
    let rs = rotation_system::SRS::new();

    assert_eq!((1, 0), rs.minp(Id::T, Rotation::R0));
    assert_eq!((1, 0), rs.minp(Id::T, Rotation::R90));
    assert_eq!((0, 1), rs.minp(Id::T, Rotation::R180));
    assert_eq!((1, 0), rs.minp(Id::T, Rotation::R270));

    assert_eq!((2, 0), rs.minp(Id::I, Rotation::R90));
    assert_eq!((0, 0), rs.minp(Id::Z, Rotation::R0));
}

#[test]
fn test_min_max() {
    let rs = rotation_system::new("srs").unwrap();
    assert_eq!((1, 0), rs.min(Id::L, Rotation::R90));
    assert_eq!((2, 2), rs.max(Id::L, Rotation::R90));
    assert_eq!((0, 2), rs.min(Id::I, Rotation::R180));
    assert_eq!((3, 2), rs.max(Id::I, Rotation::R180));
}

#[test]
fn test_rotation_factory_names() {
    assert!(rotation_system::new("srs").is_ok());
    assert!(rotation_system::new("ars").is_ok());
    assert!(rotation_system::new("dtet").is_ok());
    assert_eq!(rotation_system::new("tengen").unwrap(), RotationSystem::Tengen);
    assert_eq!(rotation_system::new("nope"), Err(Error::UnknownName));
}

#[test]
fn test_data_srs_t_spawn() {
    let rs = rotation_system::new("srs").unwrap();
    let d = rs.data(Id::T, Rotation::R0);
    assert_eq!(d, [(0, 1), (1, 0), (1, 1), (2, 1)]);
}
