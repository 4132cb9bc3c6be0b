use model_viewer::camera::Type;
use model_viewer::input::Action;
use model_viewer::input::Command;
use model_viewer::input::Commands;
use model_viewer::input::Input;
use model_viewer::input::Keys;
use model_viewer::input::FLYING_CAMERA;
use model_viewer::input::FPS_CAMERA;

fn idle() -> Keys {
    Keys {
        w: Action::Release,
        s: Action::Release,
        a: Action::Release,
        d: Action::Release,
        f8: Action::Release,
        f9: Action::Release,
    }
}

#[test]
fn a_key_is_down_when_pressed_or_repeating() {
    assert!(Action::Press.key_down());
    assert!(Action::Repeat.key_down());
    assert!(!Action::Release.key_down());
}

#[test]
fn a_key_is_pressed_only_when_it_goes_down() {
    assert!(Action::Press.key_pressed());
    assert!(!Action::Repeat.key_pressed());
    assert!(!Action::Release.key_pressed());
}

#[test]
fn each_command_has_its_own_bit() {
    assert_eq!(FLYING_CAMERA, 1);
    assert_eq!(FPS_CAMERA, 2);
    assert_eq!(Command::FlyingCamera.bit(), 1);
    assert_eq!(Command::FpsCamera.bit(), 2);
}

#[test]
fn the_empty_set_holds_no_command() {
    let commands = Commands::empty();
    assert!(!commands.contains(Command::FlyingCamera));
    assert!(!commands.contains(Command::FpsCamera));
}

#[test]
fn an_inserted_command_is_found() {
    let mut commands = Commands::empty();
    commands.insert(Command::FpsCamera);
    assert!(commands.contains(Command::FpsCamera));
    assert!(!commands.contains(Command::FlyingCamera));
    commands.insert(Command::FlyingCamera);
    assert!(commands.contains(Command::FpsCamera));
    assert!(commands.contains(Command::FlyingCamera));
}

#[test]
fn inserting_twice_changes_nothing() {
    let mut once = Commands::empty();
    once.insert(Command::FlyingCamera);
    let mut twice = once;
    twice.insert(Command::FlyingCamera);
    assert_eq!(once, twice);
    assert!(!twice.contains(Command::FpsCamera));
}

#[test]
fn new_input_asks_for_nothing() {
    let input = Input::new();
    assert_eq!(input.movement_axes(), (0, 0));
    assert!(!input.flying_camera());
    assert!(!input.fps_camera());
}

#[test]
fn idle_keys_ask_for_nothing() {
    let mut input = Input::new();
    input.update(&idle());
    assert_eq!(input.movement_axes(), (0, 0));
    assert!(!input.flying_camera());
    assert!(!input.fps_camera());
}

#[test]
fn w_moves_forward_and_s_backward() {
    let mut input = Input::new();
    input.update(&Keys { w: Action::Press, ..idle() });
    assert_eq!(input.movement_axes(), (0, 1));
    input.update(&Keys { s: Action::Repeat, ..idle() });
    assert_eq!(input.movement_axes(), (0, -1));
}

#[test]
fn d_moves_right_and_a_left() {
    let mut input = Input::new();
    input.update(&Keys { d: Action::Repeat, ..idle() });
    assert_eq!(input.movement_axes(), (1, 0));
    input.update(&Keys { a: Action::Press, ..idle() });
    assert_eq!(input.movement_axes(), (-1, 0));
}

#[test]
fn opposite_keys_cancel() {
    let mut input = Input::new();
    input.update(&Keys { w: Action::Press, s: Action::Repeat, ..idle() });
    assert_eq!(input.movement_axes(), (0, 0));
    input.update(&Keys { a: Action::Press, d: Action::Press, w: Action::Repeat, ..idle() });
    assert_eq!(input.movement_axes(), (0, 1));
}

#[test]
fn both_axes_are_read_together() {
    let mut input = Input::new();
    input.update(&Keys { w: Action::Repeat, a: Action::Repeat, ..idle() });
    assert_eq!(input.movement_axes(), (-1, 1));
    input.update(&Keys { s: Action::Press, d: Action::Press, ..idle() });
    assert_eq!(input.movement_axes(), (1, -1));
}

#[test]
fn f8_asks_for_the_flying_camera() {
    let mut input = Input::new();
    input.update(&Keys { f8: Action::Press, ..idle() });
    assert!(input.flying_camera());
    assert!(!input.fps_camera());
}

#[test]
fn f9_asks_for_the_first_person_camera() {
    let mut input = Input::new();
    input.update(&Keys { f9: Action::Press, ..idle() });
    assert!(!input.flying_camera());
    assert!(input.fps_camera());
}

#[test]
fn both_commands_can_be_given_at_once() {
    let mut input = Input::new();
    input.update(&Keys { f8: Action::Press, f9: Action::Press, ..idle() });
    assert!(input.flying_camera());
    assert!(input.fps_camera());
}

#[test]
fn a_held_command_key_gives_no_command() {
    let mut input = Input::new();
    input.update(&Keys { f8: Action::Repeat, f9: Action::Repeat, ..idle() });
    assert!(!input.flying_camera());
    assert!(!input.fps_camera());
}

#[test]
fn an_update_forgets_the_commands_before_it() {
    let mut input = Input::new();
    input.update(&Keys { f8: Action::Press, w: Action::Press, ..idle() });
    assert!(input.flying_camera());
    input.update(&idle());
    assert!(!input.flying_camera());
    assert_eq!(input.movement_axes(), (0, 0));
}

#[test]
fn the_camera_keeps_its_mode_without_a_command() {
    let input = Input::new();
    assert_eq!(Type::Fps.switched(&input), Type::Fps);
    assert_eq!(Type::Flying.switched(&input), Type::Flying);
}

#[test]
fn the_camera_takes_the_mode_asked_for() {
    let mut input = Input::new();
    input.update(&Keys { f8: Action::Press, ..idle() });
    assert_eq!(Type::Fps.switched(&input), Type::Flying);
    assert_eq!(Type::Flying.switched(&input), Type::Flying);
    input.update(&Keys { f9: Action::Press, ..idle() });
    assert_eq!(Type::Fps.switched(&input), Type::Fps);
    assert_eq!(Type::Flying.switched(&input), Type::Fps);
}

#[test]
fn the_first_person_camera_wins_over_the_flying_one() {
    let mut input = Input::new();
    input.update(&Keys { f8: Action::Press, f9: Action::Press, ..idle() });
    assert_eq!(Type::Fps.switched(&input), Type::Fps);
    assert_eq!(Type::Flying.switched(&input), Type::Fps);
}

#[test]
fn the_flying_camera_moves_where_it_looks() {
    let dir: [f32; 3] = [0.5, -0.25, 0.75];
    assert_eq!(Type::Flying.transform_dir_for_movement(dir, 0.0), [0.5, -0.25, 0.75]);
}

#[test]
fn the_first_person_camera_moves_level() {
    let dir: [f32; 3] = [0.5, -0.25, 0.75];
    assert_eq!(Type::Fps.transform_dir_for_movement(dir, 0.0), [0.5, 0.0, 0.75]);
    let up: [f32; 3] = [0.0, 1.0, 0.0];
    assert_eq!(Type::Fps.transform_dir_for_movement(up, 0.0), [0.0, 0.0, 0.0]);
}

#[test]
fn the_first_person_camera_takes_the_level_it_is_given() {
    let dir: [i32; 3] = [3, 4, 5];
    assert_eq!(Type::Fps.transform_dir_for_movement(dir, 9), [3, 9, 5]);
    assert_eq!(Type::Flying.transform_dir_for_movement(dir, 9), [3, 4, 5]);
}
