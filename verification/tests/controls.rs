use road_intersection::models::direction::Direction;
use road_intersection::simulation::controls::{Command, Controls, Key};

#[test]
fn new_controls_have_every_switch_off() {
    let controls = Controls::new();
    assert_eq!(controls, Controls { is_paused: false, debug_mode: false, confirm_exit: false });
}

#[test]
fn leaving_takes_two_requests_in_a_row() {
    let mut controls = Controls::new();
    assert_eq!(controls.exit_requested(), Command::AskAgain);
    assert!(controls.confirm_exit);
    assert_eq!(controls.exit_requested(), Command::Exit);
}

#[test]
fn any_key_between_two_requests_disarms_the_exit() {
    let mut controls = Controls::new();
    assert_eq!(controls.exit_requested(), Command::AskAgain);
    assert_eq!(controls.key_pressed(Key::Other), Command::Nothing);
    assert!(!controls.confirm_exit);
    assert_eq!(controls.exit_requested(), Command::AskAgain);
}

#[test]
fn arrows_ask_for_vehicles_from_the_side_they_point_away_from() {
    let mut controls = Controls::new();
    assert_eq!(controls.key_pressed(Key::Up), Command::Spawn(Direction::South));
    assert_eq!(controls.key_pressed(Key::Down), Command::Spawn(Direction::North));
    assert_eq!(controls.key_pressed(Key::Left), Command::Spawn(Direction::East));
    assert_eq!(controls.key_pressed(Key::Right), Command::Spawn(Direction::West));
    assert_eq!(controls.key_pressed(Key::Random), Command::SpawnRandom);
    assert_eq!(controls, Controls::new());
}

#[test]
fn pause_key_flips_the_pause_switch() {
    let mut controls = Controls::new();
    assert_eq!(controls.key_pressed(Key::Pause), Command::AnnouncePaused);
    assert!(controls.is_paused);
    assert_eq!(controls.key_pressed(Key::Pause), Command::AnnounceResumed);
    assert!(!controls.is_paused);
}

#[test]
fn debug_key_flips_the_debug_switch() {
    let mut controls = Controls::new();
    assert_eq!(controls.key_pressed(Key::Debug), Command::AnnounceDebugOn);
    assert!(controls.debug_mode);
    assert_eq!(controls.key_pressed(Key::Debug), Command::AnnounceDebugOff);
    assert!(!controls.debug_mode);
}

#[test]
fn speed_keys_change_no_switch() {
    let mut controls = Controls::new();
    assert_eq!(controls.key_pressed(Key::Faster), Command::SpeedUp);
    assert_eq!(controls.key_pressed(Key::Slower), Command::SlowDown);
    assert_eq!(controls, Controls::new());
}
