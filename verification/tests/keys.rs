use emed_core::{
    command_from_event, command_from_key, to_input_key, EditorCommand, EditorState, Effect,
    InputKey, KeyName, KeyPress,
};

fn press(name: KeyName) -> KeyPress {
    KeyPress { name, pressed: true, ctrl: false, alt: false }
}

#[test]
fn plain_keys_have_their_plain_bindings() {
    let cases = [
        (InputKey::Left, EditorCommand::MoveLeft),
        (InputKey::Right, EditorCommand::MoveRight),
        (InputKey::Up, EditorCommand::MoveUp),
        (InputKey::Down, EditorCommand::MoveDown),
        (InputKey::Enter, EditorCommand::InsertNewline),
        (InputKey::Delete, EditorCommand::DeleteChar),
        (InputKey::Backspace, EditorCommand::Backspace),
        (InputKey::Char('q'), EditorCommand::InsertChar('q')),
        (InputKey::Char('x'), EditorCommand::InsertChar('x')),
        (InputKey::Ctrl('a'), EditorCommand::NoOp),
        (InputKey::Ctrl('s'), EditorCommand::NoOp),
        (InputKey::Ctrl('c'), EditorCommand::NoOp),
    ];
    for (key, command) in cases {
        let mut saw_ctrl_x = false;
        assert_eq!(command_from_key(key, &mut saw_ctrl_x), command);
        assert!(!saw_ctrl_x);
    }
}

#[test]
fn chord_completes_with_save_or_quit_and_nothing_else() {
    let cases = [
        (InputKey::Ctrl('s'), EditorCommand::SaveFile),
        (InputKey::Ctrl('c'), EditorCommand::Quit),
        (InputKey::Ctrl('q'), EditorCommand::Quit),
        (InputKey::Ctrl('a'), EditorCommand::NoOp),
        (InputKey::Char('s'), EditorCommand::NoOp),
        (InputKey::Left, EditorCommand::NoOp),
        (InputKey::Enter, EditorCommand::NoOp),
    ];
    for (key, command) in cases {
        let mut saw_ctrl_x = true;
        assert_eq!(command_from_key(key, &mut saw_ctrl_x), command);
        assert!(!saw_ctrl_x);
    }
}

#[test]
fn ctrl_x_twice_keeps_the_chord_pending() {
    let mut saw_ctrl_x = true;
    assert_eq!(command_from_key(InputKey::Ctrl('x'), &mut saw_ctrl_x), EditorCommand::NoOp);
    assert!(saw_ctrl_x);
    assert_eq!(command_from_key(InputKey::Ctrl('s'), &mut saw_ctrl_x), EditorCommand::SaveFile);
}

#[test]
fn the_editor_offers_the_same_bindings_under_its_name() {
    for key in [InputKey::Ctrl('x'), InputKey::Char('a'), InputKey::Ctrl('c'), InputKey::Up] {
        for pending in [false, true] {
            let mut a = pending;
            let mut b = pending;
            assert_eq!(
                EditorState::command_from_key(key, &mut a),
                command_from_key(key, &mut b)
            );
            assert_eq!(a, b);
        }
    }
}

#[test]
fn key_events_become_input_keys() {
    assert_eq!(to_input_key(press(KeyName::Left)), Some(InputKey::Left));
    assert_eq!(to_input_key(press(KeyName::Right)), Some(InputKey::Right));
    assert_eq!(to_input_key(press(KeyName::Up)), Some(InputKey::Up));
    assert_eq!(to_input_key(press(KeyName::Down)), Some(InputKey::Down));
    assert_eq!(to_input_key(press(KeyName::Enter)), Some(InputKey::Enter));
    assert_eq!(to_input_key(press(KeyName::Backspace)), Some(InputKey::Backspace));
    assert_eq!(to_input_key(press(KeyName::Delete)), Some(InputKey::Delete));
    assert_eq!(to_input_key(press(KeyName::Char('a'))), Some(InputKey::Char('a')));
    assert_eq!(to_input_key(press(KeyName::Other)), None);
}

#[test]
fn modifiers_decide_what_a_character_is() {
    let ctrl = KeyPress { name: KeyName::Char('x'), pressed: true, ctrl: true, alt: false };
    let alt = KeyPress { name: KeyName::Char('x'), pressed: true, ctrl: false, alt: true };
    let both = KeyPress { name: KeyName::Char('x'), pressed: true, ctrl: true, alt: true };
    assert_eq!(to_input_key(ctrl), Some(InputKey::Ctrl('x')));
    assert_eq!(to_input_key(alt), None);
    assert_eq!(to_input_key(both), Some(InputKey::Ctrl('x')));
    // Arrows stand for themselves whatever is held.
    let arrow = KeyPress { name: KeyName::Left, pressed: true, ctrl: true, alt: true };
    assert_eq!(to_input_key(arrow), Some(InputKey::Left));
}

#[test]
fn releases_and_repeats_are_no_keys() {
    for name in [KeyName::Left, KeyName::Enter, KeyName::Char('a'), KeyName::Other] {
        let release = KeyPress { name, pressed: false, ctrl: false, alt: false };
        assert_eq!(to_input_key(release), None);
        let release = KeyPress { name, pressed: false, ctrl: true, alt: false };
        assert_eq!(to_input_key(release), None);
    }
}

#[test]
fn what_is_no_key_is_no_command_and_keeps_the_chord() {
    for pending in [false, true] {
        let mut saw_ctrl_x = pending;
        assert_eq!(command_from_event(None, &mut saw_ctrl_x), EditorCommand::NoOp);
        assert_eq!(saw_ctrl_x, pending);
    }
    let mut saw_ctrl_x = true;
    assert_eq!(
        command_from_event(Some(InputKey::Ctrl('c')), &mut saw_ctrl_x),
        EditorCommand::Quit
    );
    assert!(!saw_ctrl_x);
}

#[test]
fn events_are_routed_by_mode() {
    let mut state = EditorState::new((80, 24));
    let mut saw_ctrl_x = false;
    assert_eq!(state.handle_event(Some(InputKey::Char('a')), &mut saw_ctrl_x), Effect::Redraw);
    assert_eq!(state.handle_event(None, &mut saw_ctrl_x), Effect::Idle);

    // What is no key still ends a run of Quit presses.
    assert_eq!(state.handle_event(Some(InputKey::Ctrl('q')), &mut saw_ctrl_x), Effect::Redraw);
    assert_eq!(state.quit_count, 1);
    assert_eq!(state.handle_event(None, &mut saw_ctrl_x), Effect::Idle);
    assert_eq!(state.quit_count, 0);
    assert_eq!(state.help_message, emed_core::DEFAULT_HELP_MESSAGE);

    // In the prompt only keys count.
    state.prompt_buffer = Some("n".to_string());
    state.quit_count = 1;
    assert_eq!(state.handle_event(None, &mut saw_ctrl_x), Effect::Idle);
    assert_eq!(state.quit_count, 1);
    assert_eq!(state.handle_event(Some(InputKey::Char('b')), &mut saw_ctrl_x), Effect::Redraw);
    assert_eq!(state.prompt_buffer.as_deref(), Some("nb"));
    assert_eq!(state.save_to_string(), "a");
}
