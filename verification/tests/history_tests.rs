use tetrs::controller::{Action, Controller};
use tetrs::history::History;

#[test]
fn test_history_records_edges() {
    let mut controller = Controller::new();
    let mut history = History::new();

    controller.activate(Action::MoveLeft);
    history.update(&controller);
    controller.deactivate(Action::MoveLeft);
    controller.activate(Action::Hold);
    history.update(&controller);

    let events = history.get_sequence();
    assert_eq!(events.len(), 3);
    assert!(events[0].press);
    assert_eq!(events[0].action, Action::MoveLeft);
    assert_eq!(events[0].ticks, 0);
    assert!(!events[1].press);
    assert_eq!(events[1].action, Action::MoveLeft);
    assert_eq!(events[1].ticks, 1);
    assert!(events[2].press);
    assert_eq!(events[2].action, Action::Hold);

    // No change, no event.
    history.update(&controller);
    assert_eq!(history.get_sequence().len(), 3);
}

#[test]
fn test_statistics_start_zeroed() {
    let s = tetrs::statistics::Statistics::new();
    assert_eq!(s.lines, 0);
    assert_eq!(s.pieces, 0);
    assert_eq!(s.singles + s.doubles + s.triples + s.fours, 0);
}

#[test]
fn test_options_defaults() {
    let o = tetrs::options::Options::new();
    assert_eq!(o.das, 180);
    assert_eq!(o.gravity, 1000);
    assert!(o.has_hold && o.has_hard_drop && o.has_soft_drop);
    assert_eq!(o.preview_count, 3);
}
