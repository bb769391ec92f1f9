use smas_launcher::input::action_for_button;
use smas_launcher::input::action_for_key;
use smas_launcher::input::Action;
use smas_launcher::input::KeyPress;
use smas_launcher::input::PadButton;
use smas_launcher::machine::LaunchError;
use smas_launcher::machine::LoopState;
use smas_launcher::machine::RenderLoop;
use smas_launcher::machine::WindowEvent;
use smas_launcher::options::LauncherOptions;

fn names(v: &[&str]) -> Vec<String> {
    v.iter().map(|s| s.to_string()).collect()
}

fn options_with_onload(onload: u8) -> LauncherOptions {
    LauncherOptions { selector: 1, bgtype: 1, background_color: (66, 113, 183), onload }
}

#[test]
fn end_to_end_launch_scenario() {
    // catalog ["a.sfc", "b.sfc"], selection starts at 0
    let mut rl = RenderLoop::new(names(&["a.sfc", "b.sfc"]), options_with_onload(1));
    assert_eq!(rl.selection.selected, 0);
    assert_eq!(rl.state, LoopState::Running);

    rl.apply_action(Action::Right);
    assert_eq!(rl.selection.selected, 1);
    rl.apply_action(Action::Right);
    assert_eq!(rl.selection.selected, 1); // clamped

    rl.apply_action(Action::Confirm);
    assert_eq!(rl.pending, Some(1));

    // the request is consumed within the same frame
    let req = rl.take_launch_request();
    assert_eq!(req, Some(1));
    assert_eq!(rl.pending, None);
    assert_eq!(rl.state, LoopState::LaunchPending);

    // exit-on-launch is configured, so a successful launch ends the loop
    let outcome = rl.complete_launch(true);
    assert!(outcome.is_ok());
    assert_eq!(rl.state, LoopState::Exiting);
}

#[test]
fn missing_executable_keeps_the_loop_running() {
    let mut rl = RenderLoop::new(names(&["a.sfc"]), options_with_onload(1));
    rl.apply_action(Action::Confirm);
    let req = rl.take_launch_request();
    assert_eq!(req, Some(0));
    assert_eq!(rl.state, LoopState::LaunchPending);

    let outcome = rl.complete_launch(false);
    assert_eq!(outcome, Err(LaunchError::ExecutableNotFound));
    assert_eq!(rl.state, LoopState::Running);
    assert_eq!(LaunchError::ExecutableNotFound.message(), "SMW executable not found");
}

#[test]
fn staying_open_after_launch_is_honored() {
    let mut rl = RenderLoop::new(names(&["a.sfc"]), options_with_onload(0));
    rl.apply_action(Action::Confirm);
    assert_eq!(rl.take_launch_request(), Some(0));
    assert!(rl.complete_launch(true).is_ok());
    assert_eq!(rl.state, LoopState::Running);
}

#[test]
fn confirm_on_empty_catalog_requests_nothing() {
    let mut rl = RenderLoop::new(Vec::new(), options_with_onload(1));
    rl.apply_action(Action::Confirm);
    assert_eq!(rl.pending, None);
    assert_eq!(rl.take_launch_request(), None);
    assert_eq!(rl.state, LoopState::Running);
}

#[test]
fn quit_paths_exit_directly() {
    let mut rl = RenderLoop::new(names(&["a.sfc"]), options_with_onload(1));
    rl.handle_event(WindowEvent::Quit);
    assert_eq!(rl.state, LoopState::Exiting);

    let mut rl = RenderLoop::new(names(&["a.sfc"]), options_with_onload(1));
    rl.handle_event(WindowEvent::KeyDown(KeyPress::Escape));
    assert_eq!(rl.state, LoopState::Exiting);

    let mut rl = RenderLoop::new(names(&["a.sfc"]), options_with_onload(1));
    rl.apply_action(Action::Back); // gamepad back
    assert_eq!(rl.state, LoopState::Exiting);
}

#[test]
fn click_on_a_box_selects_and_launches_it() {
    let mut rl = RenderLoop::new(names(&["a.sfc", "b.sfc"]), options_with_onload(1));
    rl.handle_event(WindowEvent::MouseLeftDown(400, 200));
    assert_eq!(rl.selection.selected, 1);
    assert_eq!(rl.pending, Some(1));
    // the click did not move the tracked pointer
    assert_eq!(rl.mouse_x, 0);
    assert_eq!(rl.mouse_y, 0);
}

#[test]
fn click_outside_every_box_changes_nothing() {
    let mut rl = RenderLoop::new(names(&["a.sfc", "b.sfc"]), options_with_onload(1));
    rl.handle_event(WindowEvent::MouseLeftDown(5, 5));
    assert_eq!(rl.selection.selected, 0);
    assert_eq!(rl.pending, None);
}

#[test]
fn hovering_moves_the_selection_without_clicking() {
    let mut rl = RenderLoop::new(names(&["a.sfc", "b.sfc"]), options_with_onload(1));
    rl.handle_event(WindowEvent::MouseMotion(400, 200));
    assert_eq!(rl.selection.selected, 1);
    assert_eq!(rl.pending, None);
    assert_eq!(rl.mouse_x, 400);
    assert_eq!(rl.mouse_y, 200);

    // hovering empty space keeps the last selection
    rl.handle_event(WindowEvent::MouseMotion(5, 5));
    assert_eq!(rl.selection.selected, 1);
}

#[test]
fn keyboard_arrows_move_the_selection() {
    let mut rl = RenderLoop::new(names(&["a.sfc", "b.sfc"]), options_with_onload(1));
    rl.handle_event(WindowEvent::KeyDown(KeyPress::Right));
    assert_eq!(rl.selection.selected, 1);
    rl.handle_event(WindowEvent::KeyDown(KeyPress::Left));
    assert_eq!(rl.selection.selected, 0);
    rl.handle_event(WindowEvent::KeyDown(KeyPress::Return));
    assert_eq!(rl.pending, Some(0));
}

#[test]
fn animation_tick_advances_blends() {
    let mut rl = RenderLoop::new(names(&["a.sfc", "b.sfc"]), options_with_onload(1));
    rl.tick_animation();
    assert_eq!(rl.selection.blend_of(0), 1500);
    assert_eq!(rl.selection.blend_of(1), 0);
}

#[test]
fn gamepad_button_table() {
    assert_eq!(action_for_button(PadButton::South), Action::Confirm);
    assert_eq!(action_for_button(PadButton::East), Action::Back);
    assert_eq!(action_for_button(PadButton::North), Action::Up);
    assert_eq!(action_for_button(PadButton::DPadUp), Action::Up);
    assert_eq!(action_for_button(PadButton::DPadDown), Action::Down);
    assert_eq!(action_for_button(PadButton::West), Action::Left);
    assert_eq!(action_for_button(PadButton::DPadLeft), Action::Left);
    assert_eq!(action_for_button(PadButton::DPadRight), Action::Right);
    assert_eq!(action_for_button(PadButton::Start), Action::Start);
    assert_eq!(action_for_button(PadButton::Other), Action::Idle);
}

#[test]
fn keyboard_table() {
    assert_eq!(action_for_key(KeyPress::Escape), Action::Back);
    assert_eq!(action_for_key(KeyPress::Return), Action::Confirm);
    assert_eq!(action_for_key(KeyPress::Left), Action::Left);
    assert_eq!(action_for_key(KeyPress::Right), Action::Right);
    assert_eq!(action_for_key(KeyPress::Other), Action::Idle);
}

#[test]
fn default_options() {
    let o = LauncherOptions::default();
    assert_eq!(o.selector, 1);
    assert_eq!(o.bgtype, 1);
    assert_eq!(o.background_color, (66, 113, 183));
    assert_eq!(o.onload, 1);
    assert!(o.exit_after_launch());
    assert!(!options_with_onload(0).exit_after_launch());
    assert!(!options_with_onload(2).exit_after_launch());
}
