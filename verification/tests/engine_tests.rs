use tetrs::block::Id;
use tetrs::controller::Action;
use tetrs::engine::{Engine, EngineOptions, EngineSettings, Status};
use tetrs::Error;

fn cells_filled(engine: &Engine) -> usize {
    let mut n = 0;
    for y in 0..engine.fd.height {
        for x in 0..engine.fd.width {
            if engine.fd.get((x, y)) != Ok(Id::Empty) {
                n += 1;
            }
        }
    }
    n
}

#[test]
fn test_new_engine_defaults() {
    let engine = Engine::new(EngineOptions::default()).unwrap();
    assert!(engine.running);
    assert_eq!(engine.tick_count, 0);
    assert_eq!(engine.mspt, 16);
    assert_eq!(engine.st.pieces, 0);
    assert!(engine.hd.is_none());
}

#[test]
fn test_new_engine_bad_names() {
    let mut options = EngineOptions::default();
    options.randomizer_name = "stack".to_string();
    assert_eq!(Engine::new(options).err(), Some(Error::UnknownName));

    let mut options = EngineOptions::default();
    options.mspt = 0;
    assert_eq!(Engine::new(options).err(), Some(Error::ZeroTickRate));

    let mut options = EngineOptions::default();
    options.wallkick_name = "none".to_string();
    assert_eq!(Engine::new(options).err(), Some(Error::UnknownName));

    let mut options = EngineOptions::default();
    options.rotation_system_name = "sega".to_string();
    assert_eq!(Engine::new(options).err(), Some(Error::UnknownName));
}

#[test]
fn test_hard_drop_locks_and_spawns() {
    // With are = 0, one HardDrop press locks the piece and respawns.
    let mut engine = Engine::new(EngineOptions::default()).unwrap();
    assert_eq!(engine.op.are, 0);

    engine.update();
    assert_eq!(cells_filled(&engine), 0);

    engine.co.activate(Action::HardDrop);
    engine.update();
    engine.co.deactivate(Action::HardDrop);

    assert_eq!(cells_filled(&engine), 4);
    assert_eq!(engine.st.pieces, 1);
    assert_eq!(engine.it.hold_count, 0);

    engine.update();
    assert_eq!(engine.bk.x, engine.fd.spawn.0);
    assert_eq!(engine.bk.y, engine.fd.spawn.1);
}

#[test]
fn test_quit_stops_running() {
    let mut engine = Engine::new(EngineOptions::default()).unwrap();
    engine.update();
    engine.co.activate(Action::Quit);
    engine.update();
    assert!(!engine.running);
}

#[test]
fn test_move_left_on_press() {
    let mut engine = Engine::new(EngineOptions::default()).unwrap();
    engine.update();
    let x = engine.bk.x;
    engine.co.activate(Action::MoveLeft);
    engine.update();
    assert_eq!(engine.bk.x, x - 1);
    // Held below the auto-shift charge, it does not repeat.
    engine.update();
    assert_eq!(engine.bk.x, x - 1);
}

#[test]
fn test_rotate_on_press() {
    let mut engine = Engine::new(EngineOptions::default()).unwrap();
    engine.update();
    engine.co.activate(Action::RotateRight);
    engine.update();
    assert_eq!(engine.bk.r, tetrs::block::Rotation::R90);
}

#[test]
fn test_hold_swaps_piece() {
    let mut engine = Engine::new(EngineOptions::default()).unwrap();
    engine.update();
    let first = engine.bk.id;
    engine.co.activate(Action::Hold);
    engine.update();
    assert_eq!(engine.hd, Some(first));
    assert_eq!(engine.it.hold_count, 1);
}

#[test]
fn test_statistics_consistent_after_play() {
    let mut engine = Engine::new(EngineOptions::default()).unwrap();
    for i in 0..200 {
        if i % 2 == 0 {
            engine.co.activate(Action::HardDrop);
        } else {
            engine.co.deactivate(Action::HardDrop);
        }
        engine.update();
        let st = engine.st;
        assert_eq!(
            st.lines,
            st.singles + 2 * st.doubles + 3 * st.triples + 4 * st.fours
        );
        if !engine.running {
            break;
        }
    }
    assert!(engine.st.pieces > 0);
}

#[test]
fn test_are_delay() {
    let mut options = EngineOptions::default();
    options.engine_settings = EngineSettings { are: 64, ..EngineSettings::default() };
    let mut engine = Engine::new(options).unwrap();
    engine.update();
    engine.co.activate(Action::HardDrop);
    engine.update();
    engine.co.deactivate(Action::HardDrop);
    assert_eq!(engine.status, Status::Are);
}

#[test]
fn test_gravity_falls() {
    let mut engine = Engine::new(EngineOptions::default()).unwrap();
    // Default gravity is a thousandth of a cell per ms: one cell takes
    // 1000 ms, which is 63 ticks of 16 ms.
    for _ in 0..70 {
        engine.update();
    }
    assert!(engine.bk.y > 0);
}

#[test]
fn test_das_autorepeat() {
    let mut engine = Engine::new(EngineOptions::default()).unwrap();
    engine.update();
    engine.co.activate(Action::MoveLeft);
    // One shift on the press tick, then one per tick once the 180 ms
    // delayed auto-shift (11 ticks) has charged: more than enough to
    // reach the left wall from the spawn column.
    for _ in 0..20 {
        engine.update();
    }
    // The anchor of the leftmost position depends on the piece (an O
    // piece rests at -1, the others at 0); what is certain is that no
    // further step left fits.
    assert!(engine.bk.x <= 0);
    let mut probe = engine.bk;
    assert!(!probe.shift(&engine.fd, tetrs::block::Direction::Left));
}

#[test]
fn test_soft_drop() {
    let mut engine = Engine::new(EngineOptions::default()).unwrap();
    engine.update();
    engine.co.activate(Action::MoveDown);
    engine.update();
    // Two cells per millisecond sends the piece to the floor in one tick.
    assert!(engine.bk.y >= 20);
}
