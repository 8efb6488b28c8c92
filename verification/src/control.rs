//! The keyboard controls of the player and the messages between the menu
//! and the audio thread.
//!
//! Left and right move the phase shift of the second wave by 0.05 of a
//! wavelength (0.01 with shift held), up and down move the frequency by
//! 10 Hz (1 Hz with shift held), space starts or stops playback and `q`
//! quits. Phase shifts are counted in hundredths of a wavelength and
//! frequencies in hertz, so every step is a whole number.
use vstd::prelude::*;

verus! {

/// A key as the controls tell keys apart.
#[derive(Clone, Copy, Debug, PartialEq, Eq, Structural)]
pub enum Key {
    Left,
    Right,
    Up,
    Down,
    Char(char),
    Other,
}

/// A key press: the key, and whether shift was the one modifier held.
#[derive(Clone, Copy, Debug, PartialEq, Eq, Structural)]
pub struct KeyPress {
    pub key: Key,
    pub shift_only: bool,
}

/// A message from the menu to the audio thread.
#[derive(Clone, Copy, Debug, PartialEq, Eq, Structural)]
pub enum Action {
    /// Change the frequency by this many hertz.
    DeltaFreq(i32),
    /// Change the phase shift by this many hundredths of a wavelength.
    DeltaPhaseShift(i32),
    /// End playback.
    Stop,
}

/// What a key press, or a message, asks for.
#[derive(Clone, Copy, Debug, PartialEq, Eq, Structural)]
pub enum Response {
    /// Change the frequency by this many hertz.
    Retune(i32),
    /// Change the phase shift by this many hundredths of a wavelength.
    Shift(i32),
    StartPlayback,
    StopPlayback,
    Quit,
    Ignore,
}

/// The response to a key press, and the message it sends to the audio
/// thread, if any.
#[derive(Clone, Copy, Debug, PartialEq, Eq, Structural)]
pub struct Reaction {
    pub response: Response,
    pub message: Option<Action>,
}

/// The frequency step in hertz.
pub open spec fn freq_step(shift_only: bool) -> i32 {
    if shift_only { 1 } else { 10 }
}

/// The phase shift step in hundredths of a wavelength.
pub open spec fn phase_step(shift_only: bool) -> i32 {
    if shift_only { 1 } else { 5 }
}

/// What a key press asks for, given whether playback runs.
pub open spec fn response_to(playing: bool, press: KeyPress) -> Response {
    match press.key {
        Key::Left => Response::Shift((-phase_step(press.shift_only)) as i32),
        Key::Right => Response::Shift(phase_step(press.shift_only)),
        Key::Up => Response::Retune(freq_step(press.shift_only)),
        Key::Down => Response::Retune((-freq_step(press.shift_only)) as i32),
        Key::Char(c) => if c == ' ' {
            if playing {
                Response::StopPlayback
            } else {
                Response::StartPlayback
            }
        } else if c == 'q' {
            Response::Quit
        } else {
            Response::Ignore
        },
        Key::Other => Response::Ignore,
    }
}

/// The message the menu sends to the audio thread for a response: changes
/// go to it only while it runs, and stopping playback tells it to stop.
pub open spec fn message_for(playing: bool, response: Response) -> Option<Action> {
    match response {
        Response::Retune(d) => if playing {
            Some(Action::DeltaFreq(d))
        } else {
            None
        },
        Response::Shift(d) => if playing {
            Some(Action::DeltaPhaseShift(d))
        } else {
            None
        },
        Response::StopPlayback => Some(Action::Stop),
        _ => None,
    }
}

/// Whether playback runs after a response.
pub open spec fn playing_after(playing: bool, response: Response) -> bool {
    match response {
        Response::StartPlayback => true,
        Response::StopPlayback => false,
        _ => playing,
    }
}

/// What the audio thread does with the message it found, if any.
pub open spec fn response_to_message(message: Option<Action>) -> Response {
    match message {
        Some(Action::DeltaFreq(d)) => Response::Retune(d),
        Some(Action::DeltaPhaseShift(d)) => Response::Shift(d),
        Some(Action::Stop) => Response::StopPlayback,
        None => Response::Ignore,
    }
}

/// The menu side of the player: it knows whether playback runs.
pub struct Controller {
    playing: bool,
}

impl View for Controller {
    type V = bool;

    /// Whether playback runs.
    closed spec fn view(&self) -> bool {
        self.playing
    }
}

impl Controller {
    /// A controller before playback was ever started.
    pub fn new() -> (c: Controller)
        ensures
            !c@,
    {
        Controller { playing: false }
    }

    /// Whether playback runs.
    pub fn is_playing(&self) -> (playing: bool)
        ensures
            playing == self@,
    {
        self.playing
    }

    /// Reacts to a key press: says what to change and what to tell the
    /// audio thread, and records whether playback runs afterwards.
    pub fn on_key(&mut self, press: KeyPress) -> (reaction: Reaction)
        ensures
            reaction.response == response_to(old(self)@, press),
            reaction.message == message_for(old(self)@, reaction.response),
            final(self)@ == playing_after(old(self)@, reaction.response),
    {
        let shift_only = press.shift_only;
        let response = match press.key {
            Key::Left => Response::Shift(if shift_only { -1 } else { -5 }),
            Key::Right => Response::Shift(if shift_only { 1 } else { 5 }),
            Key::Up => Response::Retune(if shift_only { 1 } else { 10 }),
            Key::Down => Response::Retune(if shift_only { -1 } else { -10 }),
            Key::Char(c) => {
                if c == ' ' {
                    if self.playing {
                        Response::StopPlayback
                    } else {
                        Response::StartPlayback
                    }
                } else if c == 'q' {
                    Response::Quit
                } else {
                    Response::Ignore
                }
            },
            Key::Other => Response::Ignore,
        };
        let message = match response {
            Response::Retune(d) => if self.playing {
                Some(Action::DeltaFreq(d))
            } else {
                None
            },
            Response::Shift(d) => if self.playing {
                Some(Action::DeltaPhaseShift(d))
            } else {
                None
            },
            Response::StopPlayback => Some(Action::Stop),
            _ => None,
        };
        match response {
            Response::StartPlayback => {
                self.playing = true;
            },
            Response::StopPlayback => {
                self.playing = false;
            },
            _ => {},
        }
        Reaction { response, message }
    }
}

/// What the audio thread does after a buffer, given the message it found
/// waiting, if any: apply a change, or stop.
pub fn handle_message(message: Option<Action>) -> (response: Response)
    ensures
        response == response_to_message(message),
{
    match message {
        Some(Action::DeltaFreq(d)) => Response::Retune(d),
        Some(Action::DeltaPhaseShift(d)) => Response::Shift(d),
        Some(Action::Stop) => Response::StopPlayback,
        None => Response::Ignore,
    }
}

/// The character typed by a key press, if the key is a character.
pub fn typed_char(key: Key) -> (c: Option<char>)
    ensures
        c == (match key {
            Key::Char(k) => Some(k),
            _ => None,
        }),
{
    match key {
        Key::Char(k) => Some(k),
        _ => None,
    }
}

/// A frequency and a phase shift, as offsets in hertz and in hundredths of
/// a wavelength.
pub open spec fn tuned(tuning: (int, int), response: Response) -> (int, int) {
    match response {
        Response::Retune(d) => (tuning.0 + d, tuning.1),
        Response::Shift(d) => (tuning.0, tuning.1 + d),
        _ => tuning,
    }
}

/// A session of key presses: whether playback runs, the tuning the menu
/// shows, and the tuning the audio thread plays. Starting playback hands the
/// audio thread a copy of the menu's tuning; after that it only learns of
/// changes through messages.
pub open spec fn session(
    playing: bool,
    menu: (int, int),
    audio: (int, int),
    presses: Seq<KeyPress>,
) -> (bool, (int, int), (int, int))
    decreases presses.len(),
{
    if presses.len() == 0 {
        (playing, menu, audio)
    } else {
        let response = response_to(playing, presses[0]);
        let audio_next = if response == Response::StartPlayback {
            menu
        } else {
            tuned(audio, response_to_message(message_for(playing, response)))
        };
        session(
            playing_after(playing, response),
            tuned(menu, response),
            audio_next,
            presses.drop_first(),
        )
    }
}

/// While playback runs, the audio thread plays the frequency and the phase
/// shift that the menu shows, whatever keys were pressed.
pub proof fn lemma_audio_follows_menu(
    playing: bool,
    menu: (int, int),
    audio: (int, int),
    presses: Seq<KeyPress>,
)
    requires
        playing ==> audio == menu,
    ensures
        ({
            let (p, m, a) = session(playing, menu, audio, presses);
            p ==> a == m
        }),
    decreases presses.len(),
{
    if presses.len() > 0 {
        let response = response_to(playing, presses[0]);
        let audio_next = if response == Response::StartPlayback {
            menu
        } else {
            tuned(audio, response_to_message(message_for(playing, response)))
        };
        lemma_audio_follows_menu(
            playing_after(playing, response),
            tuned(menu, response),
            audio_next,
            presses.drop_first(),
        );
    }
}

/// Space starts playback when it is stopped and stops it when it runs, so
/// pressing it twice leaves playback as it was.
pub proof fn lemma_space_toggles(playing: bool, shift_only: bool)
    ensures
        ({
            let press = KeyPress { key: Key::Char(' '), shift_only };
            let first = playing_after(playing, response_to(playing, press));
            &&& first == !playing
            &&& playing_after(first, response_to(first, press)) == playing
        }),
{
}

/// Left undoes right and down undoes up, with or without shift; and no
/// adjustment starts or stops playback.
pub proof fn lemma_opposite_keys_cancel(playing: bool, shift_only: bool, tuning: (int, int))
    ensures
        ({
            let left = response_to(playing, KeyPress { key: Key::Left, shift_only });
            let right = response_to(playing, KeyPress { key: Key::Right, shift_only });
            let up = response_to(playing, KeyPress { key: Key::Up, shift_only });
            let down = response_to(playing, KeyPress { key: Key::Down, shift_only });
            &&& tuned(tuned(tuning, right), left) == tuning
            &&& tuned(tuned(tuning, up), down) == tuning
            &&& playing_after(playing, left) == playing
            &&& playing_after(playing, right) == playing
            &&& playing_after(playing, up) == playing
            &&& playing_after(playing, down) == playing
        }),
{
}

/// The audio thread applies exactly the change that the menu applied, and
/// stops exactly when the menu stops playback.
pub proof fn lemma_message_round_trip(response: Response)
    ensures
        match response {
            Response::Retune(_) | Response::Shift(_) | Response::StopPlayback => response_to_message(
                message_for(true, response),
            ) == response,
            _ => message_for(true, response) is None,
        },
        message_for(false, response) is Some <==> response == Response::StopPlayback,
{
}

/// The key table, in numbers: left and right move the phase shift down and
/// up by 5 hundredths of a wavelength (1 with shift), up and down move the
/// frequency up and down by 10 Hz (1 Hz with shift), space starts playback
/// when it is stopped and stops it when it runs, `q` quits, and a key that is
/// not a character does nothing. While playback runs each change goes to the
/// audio thread with the same amount; while it is stopped nothing is sent.
pub proof fn lemma_key_table(playing: bool, shift_only: bool)
    ensures
        response_to(playing, KeyPress { key: Key::Left, shift_only }) == Response::Shift(
            if shift_only { -1i32 } else { -5i32 },
        ),
        response_to(playing, KeyPress { key: Key::Right, shift_only }) == Response::Shift(
            if shift_only { 1i32 } else { 5i32 },
        ),
        response_to(playing, KeyPress { key: Key::Up, shift_only }) == Response::Retune(
            if shift_only { 1i32 } else { 10i32 },
        ),
        response_to(playing, KeyPress { key: Key::Down, shift_only }) == Response::Retune(
            if shift_only { -1i32 } else { -10i32 },
        ),
        response_to(playing, KeyPress { key: Key::Char(' '), shift_only }) == (if playing {
            Response::StopPlayback
        } else {
            Response::StartPlayback
        }),
        response_to(playing, KeyPress { key: Key::Char('q'), shift_only }) == Response::Quit,
        response_to(playing, KeyPress { key: Key::Other, shift_only }) == Response::Ignore,
        message_for(playing, response_to(playing, KeyPress { key: Key::Left, shift_only })) == (
        if playing {
            Some(Action::DeltaPhaseShift(if shift_only { -1i32 } else { -5i32 }))
        } else {
            None
        }),
        message_for(playing, response_to(playing, KeyPress { key: Key::Right, shift_only })) == (
        if playing {
            Some(Action::DeltaPhaseShift(if shift_only { 1i32 } else { 5i32 }))
        } else {
            None
        }),
        message_for(playing, response_to(playing, KeyPress { key: Key::Up, shift_only })) == (
        if playing {
            Some(Action::DeltaFreq(if shift_only { 1i32 } else { 10i32 }))
        } else {
            None
        }),
        message_for(playing, response_to(playing, KeyPress { key: Key::Down, shift_only })) == (
        if playing {
            Some(Action::DeltaFreq(if shift_only { -1i32 } else { -10i32 }))
        } else {
            None
        }),
{
}

/// `q` quits whether or not playback runs: it sends nothing to the audio
/// thread and does not start or stop playback on its own.
pub proof fn lemma_q_quits(playing: bool, shift_only: bool)
    ensures
        ({
            let r = response_to(playing, KeyPress { key: Key::Char('q'), shift_only });
            &&& r == Response::Quit
            &&& message_for(playing, r) == None::<Action>
            &&& playing_after(playing, r) == playing
        }),
{
}

/// Every character other than space and `q`, and every key that is not a
/// character, is ignored whether or not playback runs: nothing changes,
/// nothing is sent, and playback goes on or stays stopped.
pub proof fn lemma_unbound_keys_ignored(playing: bool, shift_only: bool, key: Key)
    requires
        key != Key::Left && key != Key::Right && key != Key::Up && key != Key::Down,
        key != Key::Char(' ') && key != Key::Char('q'),
    ensures
        ({
            let r = response_to(playing, KeyPress { key, shift_only });
            &&& r == Response::Ignore
            &&& message_for(playing, r) == None::<Action>
            &&& playing_after(playing, r) == playing
            &&& tuned((0, 0), r) == (0int, 0int)
        }),
{
}

/// Each message carries its amount unchanged, in each direction on its own:
/// the menu puts the amount of a change into the message as it is, and the
/// audio thread takes it out as it is; `Stop` stops, and no message does
/// nothing.
pub proof fn lemma_messages_carry_amounts(d: i32)
    ensures
        message_for(true, Response::Retune(d)) == Some(Action::DeltaFreq(d)),
        message_for(true, Response::Shift(d)) == Some(Action::DeltaPhaseShift(d)),
        message_for(false, Response::Retune(d)) == None::<Action>,
        message_for(false, Response::Shift(d)) == None::<Action>,
        response_to_message(Some(Action::DeltaFreq(d))) == Response::Retune(d),
        response_to_message(Some(Action::DeltaPhaseShift(d))) == Response::Shift(d),
        response_to_message(Some(Action::Stop)) == Response::StopPlayback,
        response_to_message(None) == Response::Ignore,
        message_for(true, Response::StopPlayback) == Some(Action::Stop),
        message_for(false, Response::StopPlayback) == Some(Action::Stop),
        message_for(true, Response::StartPlayback) == None::<Action>,
        message_for(true, Response::Quit) == None::<Action>,
        message_for(true, Response::Ignore) == None::<Action>,
{
}

} // verus!
