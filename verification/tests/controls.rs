use program::control::{handle_message, typed_char, Action, Controller, Key, KeyPress, Reaction, Response};

fn press(key: Key, shift_only: bool) -> KeyPress {
    KeyPress { key, shift_only }
}

#[test]
fn steps_while_stopped_are_not_sent() {
    let mut c = Controller::new();
    assert!(!c.is_playing());
    assert_eq!(
        c.on_key(press(Key::Left, false)),
        Reaction { response: Response::Shift(-5), message: None }
    );
    assert_eq!(
        c.on_key(press(Key::Left, true)),
        Reaction { response: Response::Shift(-1), message: None }
    );
    assert_eq!(
        c.on_key(press(Key::Right, false)),
        Reaction { response: Response::Shift(5), message: None }
    );
    assert_eq!(
        c.on_key(press(Key::Right, true)),
        Reaction { response: Response::Shift(1), message: None }
    );
    assert_eq!(
        c.on_key(press(Key::Up, false)),
        Reaction { response: Response::Retune(10), message: None }
    );
    assert_eq!(
        c.on_key(press(Key::Up, true)),
        Reaction { response: Response::Retune(1), message: None }
    );
    assert_eq!(
        c.on_key(press(Key::Down, false)),
        Reaction { response: Response::Retune(-10), message: None }
    );
    assert_eq!(
        c.on_key(press(Key::Down, true)),
        Reaction { response: Response::Retune(-1), message: None }
    );
    assert!(!c.is_playing());
}

#[test]
fn steps_while_playing_are_sent() {
    let mut c = Controller::new();
    assert_eq!(
        c.on_key(press(Key::Char(' '), false)),
        Reaction { response: Response::StartPlayback, message: None }
    );
    assert!(c.is_playing());
    assert_eq!(
        c.on_key(press(Key::Up, false)),
        Reaction { response: Response::Retune(10), message: Some(Action::DeltaFreq(10)) }
    );
    assert_eq!(
        c.on_key(press(Key::Left, true)),
        Reaction {
            response: Response::Shift(-1),
            message: Some(Action::DeltaPhaseShift(-1))
        }
    );
    assert_eq!(
        c.on_key(press(Key::Char(' '), true)),
        Reaction { response: Response::StopPlayback, message: Some(Action::Stop) }
    );
    assert!(!c.is_playing());
}

#[test]
fn space_toggles_playback() {
    let mut c = Controller::new();
    c.on_key(press(Key::Char(' '), false));
    assert!(c.is_playing());
    c.on_key(press(Key::Char(' '), false));
    assert!(!c.is_playing());
}

#[test]
fn q_quits_and_other_keys_do_nothing() {
    let mut c = Controller::new();
    assert_eq!(
        c.on_key(press(Key::Char('q'), false)),
        Reaction { response: Response::Quit, message: None }
    );
    assert_eq!(
        c.on_key(press(Key::Char('Q'), false)),
        Reaction { response: Response::Ignore, message: None }
    );
    assert_eq!(
        c.on_key(press(Key::Char('x'), true)),
        Reaction { response: Response::Ignore, message: None }
    );
    assert_eq!(
        c.on_key(press(Key::Other, false)),
        Reaction { response: Response::Ignore, message: None }
    );
    assert!(!c.is_playing());
}

#[test]
fn left_and_right_cancel() {
    let mut c = Controller::new();
    for shift in [false, true] {
        let l = c.on_key(press(Key::Left, shift)).response;
        let r = c.on_key(press(Key::Right, shift)).response;
        match (l, r) {
            (Response::Shift(a), Response::Shift(b)) => assert_eq!(a + b, 0),
            _ => panic!("left and right must shift the phase"),
        }
        let u = c.on_key(press(Key::Up, shift)).response;
        let d = c.on_key(press(Key::Down, shift)).response;
        match (u, d) {
            (Response::Retune(a), Response::Retune(b)) => assert_eq!(a + b, 0),
            _ => panic!("up and down must retune"),
        }
    }
}

#[test]
fn audio_thread_applies_what_the_menu_sent() {
    assert_eq!(handle_message(Some(Action::DeltaFreq(-10))), Response::Retune(-10));
    assert_eq!(handle_message(Some(Action::DeltaPhaseShift(5))), Response::Shift(5));
    assert_eq!(handle_message(Some(Action::Stop)), Response::StopPlayback);
    assert_eq!(handle_message(None), Response::Ignore);
}

#[test]
fn audio_follows_menu_over_a_session() {
    // menu and audio tunings as (hertz, hundredths of a wavelength)
    let mut c = Controller::new();
    let mut menu = (0i64, 0i64);
    let mut audio = (0i64, 0i64);
    let keys = [
        press(Key::Up, false),
        press(Key::Char(' '), false),
        press(Key::Left, false),
        press(Key::Down, true),
        press(Key::Char(' '), false),
        press(Key::Right, true),
        press(Key::Char(' '), false),
        press(Key::Up, true),
    ];
    for k in keys {
        let reaction = c.on_key(k);
        let apply = |t: (i64, i64), r: Response| match r {
            Response::Retune(d) => (t.0 + d as i64, t.1),
            Response::Shift(d) => (t.0, t.1 + d as i64),
            _ => t,
        };
        if reaction.response == Response::StartPlayback {
            audio = menu;
        } else if reaction.message.is_some() {
            audio = apply(audio, handle_message(reaction.message));
        }
        menu = apply(menu, reaction.response);
        if c.is_playing() {
            assert_eq!(audio, menu);
        }
    }
    assert_eq!(menu, (10, -4));
}

#[test]
fn read_char_takes_character_keys_only() {
    assert_eq!(typed_char(Key::Char('a')), Some('a'));
    assert_eq!(typed_char(Key::Char(' ')), Some(' '));
    assert_eq!(typed_char(Key::Left), None);
    assert_eq!(typed_char(Key::Other), None);
}
