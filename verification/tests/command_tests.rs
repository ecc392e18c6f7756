use patterns::command::{Command, Light, LightOffCommand, LightOnCommand, RemoteControl};

#[test]
fn light_starts_off() {
    let l = Light::new();
    assert!(!l.is_on);
}

#[test]
fn light_on_off() {
    let mut l = Light::new();
    l.on();
    assert!(l.is_on);
    l.on();
    assert!(l.is_on);
    l.off();
    assert!(!l.is_on);
    l.off();
    assert!(!l.is_on);
}

#[test]
fn on_command_execute_then_undo_restores() {
    // Inverse pair for the on-variant: a dark light ends dark again.
    let mut lights = vec![Light::new()];
    let cmd = LightOnCommand::new(0);
    cmd.execute(&mut lights);
    assert!(lights[0].is_on);
    cmd.undo(&mut lights);
    assert!(!lights[0].is_on);
}

#[test]
fn off_command_execute_then_undo_restores() {
    // Inverse pair for the off-variant: a lit light ends lit again.
    let mut lights = vec![Light { is_on: true }];
    let cmd = LightOffCommand::new(0);
    cmd.execute(&mut lights);
    assert!(!lights[0].is_on);
    cmd.undo(&mut lights);
    assert!(lights[0].is_on);
}

#[test]
fn undo_is_blind_to_current_state() {
    // A lit light run through an on-command's execute/undo ends dark: undo
    // applies its fixed inverse, it does not restore an arbitrary prior state.
    let mut lights = vec![Light { is_on: true }];
    let cmd = LightOnCommand::new(0);
    cmd.execute(&mut lights);
    cmd.undo(&mut lights);
    assert!(!lights[0].is_on);
}

#[test]
fn history_grows_once_per_armed_press() {
    let mut remote = RemoteControl::new();
    let id = remote.add_light(Light::new());
    assert_eq!(remote.history.len(), 0);
    remote.set_command(Command::On(LightOnCommand::new(id)));
    remote.press_button();
    remote.press_button();
    remote.set_command(Command::Off(LightOffCommand::new(id)));
    remote.press_button();
    assert_eq!(remote.history.len(), 3);
}

#[test]
fn unarmed_press_is_a_no_op() {
    let mut remote = RemoteControl::new();
    remote.add_light(Light::new());
    remote.press_button();
    assert_eq!(remote.history.len(), 0);
    assert!(!remote.lights[0].is_on);
    assert!(remote.command.is_none());
}

#[test]
fn undo_on_empty_history_is_a_no_op() {
    let mut remote = RemoteControl::new();
    remote.add_light(Light::new());
    remote.press_undo();
    assert_eq!(remote.history.len(), 0);
    assert!(!remote.lights[0].is_on);
}

#[test]
fn double_undo_replays_the_same_entry() {
    let mut remote = RemoteControl::new();
    let id = remote.add_light(Light::new());
    remote.set_command(Command::On(LightOnCommand::new(id)));
    remote.press_button();
    remote.set_command(Command::Off(LightOffCommand::new(id)));
    remote.press_button();
    assert_eq!(remote.history.len(), 2);
    remote.press_undo();
    assert!(remote.lights[0].is_on);
    assert_eq!(remote.history.len(), 2);
    // Peek, not pop: the same entry's inverse is replayed.
    remote.press_undo();
    assert!(remote.lights[0].is_on);
    assert_eq!(remote.history.len(), 2);
    assert!(matches!(remote.history[1], Command::Off(_)));
}

#[test]
fn rearming_supersedes_and_leaves_history_alone() {
    let mut remote = RemoteControl::new();
    let id = remote.add_light(Light::new());
    remote.set_command(Command::Off(LightOffCommand::new(id)));
    remote.set_command(Command::On(LightOnCommand::new(id)));
    assert_eq!(remote.history.len(), 0);
    remote.press_button();
    // Only the second arming was ever executed.
    assert!(remote.lights[0].is_on);
    assert_eq!(remote.history.len(), 1);
    assert!(matches!(remote.history[0], Command::On(_)));
}

#[test]
fn remote_scenario_on_off_undo() {
    let mut remote = RemoteControl::new();
    let id = remote.add_light(Light::new());
    assert!(!remote.lights[0].is_on);

    remote.set_command(Command::On(LightOnCommand::new(id)));
    remote.press_button();
    assert!(remote.lights[0].is_on);
    assert_eq!(remote.history.len(), 1);
    assert!(matches!(remote.history[0], Command::On(_)));

    remote.set_command(Command::Off(LightOffCommand::new(id)));
    remote.press_button();
    assert!(!remote.lights[0].is_on);
    assert_eq!(remote.history.len(), 2);
    assert!(matches!(remote.history[0], Command::On(_)));
    assert!(matches!(remote.history[1], Command::Off(_)));

    // Undo inspects the latest entry (the off-command) and applies its
    // inverse: the light comes back on, the history is untouched.
    remote.press_undo();
    assert!(remote.lights[0].is_on);
    assert_eq!(remote.history.len(), 2);
    assert!(matches!(remote.history[1], Command::Off(_)));
}

#[test]
fn commands_share_one_receiver() {
    // Two commands aliasing the same registry slot act on the same light.
    let mut remote = RemoteControl::new();
    let id = remote.add_light(Light::new());
    let other = remote.add_light(Light::new());
    remote.set_command(Command::On(LightOnCommand::new(id)));
    remote.press_button();
    remote.set_command(Command::Off(LightOffCommand::new(id)));
    remote.press_button();
    assert!(!remote.lights[id].is_on);
    assert!(!remote.lights[other].is_on);
    remote.set_command(Command::On(LightOnCommand::new(other)));
    remote.press_button();
    assert!(!remote.lights[id].is_on);
    assert!(remote.lights[other].is_on);
}
