use tetrs::controller::{Action, Controller};

#[test]
fn test() {
    let mut controller = Controller::new();

    controller.activate(Action::MoveLeft);
    assert_eq!(controller.active[Action::MoveLeft as usize], true);
    assert_eq!(controller.time[Action::MoveLeft as usize], 0);

    controller.update();
    assert_eq!(controller.time[Action::MoveLeft as usize], 1);

    controller.deactivate(Action::MoveLeft);
    assert_eq!(controller.time[Action::MoveLeft as usize], 1);

    controller.update();
    assert_eq!(controller.time[Action::MoveLeft as usize], 0);

    controller.activate(Action::MoveLeft);
    controller.activate(Action::MoveRight);
    controller.update();
    controller.update();
    controller.update();
    assert_eq!(controller.time[Action::MoveLeft as usize], 3);
    assert_eq!(controller.time[Action::MoveRight as usize], 3);
}

#[test]
fn test_time_zero_iff_inactive() {
    let mut controller = Controller::new();
    controller.activate(Action::Hold);
    controller.activate(Action::Quit);
    controller.update();
    for i in 0..8 {
        assert_eq!(controller.time[i] == 0, !controller.active[i]);
    }
    controller.deactivate_all();
    controller.update();
    for i in 0..8 {
        assert_eq!(controller.time[i], 0);
    }
}
