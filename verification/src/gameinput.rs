//! From keys and buttons to intents.
//!
//! A driver turns what the devices report into [`InputType`] values. This
//! module says which intent each of them stands for and carries the intent
//! out on the game.

use crate::gamecontext::{GameContext, PlayerDirection};
use crate::gamemodel::GameModel;
use vstd::prelude::*;

verus! {

/// A key of the keyboard, as far as the game tells keys apart.
#[derive(Copy, Clone, Debug, PartialEq, Eq, Structural)]
pub enum Key {
    W,
    S,
    D,
    A,
    Space,
    Escape,
    N,
    P,
    M,
    /// Any key that the game has no use for.
    Other,
}

/// A button of a game controller, as far as the game tells buttons apart.
#[derive(Copy, Clone, Debug, PartialEq, Eq, Structural)]
pub enum Button {
    DPadUp,
    DPadDown,
    DPadRight,
    DPadLeft,
    Start,
    Back,
    A,
    B,
    X,
    /// Any button that the game has no use for.
    Other,
}

/// One press, on either device.
#[derive(Copy, Clone, Debug, PartialEq, Eq, Structural)]
pub enum InputType {
    Keyboard(Key),
    Controller(Button),
}

/// What a player can ask of the game.
#[derive(Copy, Clone, Debug, PartialEq, Eq, Structural)]
pub enum Intent {
    /// Head in the given direction.
    Move(PlayerDirection),
    TogglePause,
    Restart,
    ToggleFps,
    ToggleMusic,
    Quit,
    /// Nothing: the press means nothing to the game.
    Nothing,
}

/// What the audio player is to do with the background track.
#[derive(Copy, Clone, Debug, PartialEq, Eq, Structural)]
pub enum MusicCommand {
    Start,
    Stop,
}

/// The intent that a key stands for.
pub open spec fn key_intent(key: Key) -> Intent {
    match key {
        Key::W => Intent::Move(PlayerDirection::Up),
        Key::S => Intent::Move(PlayerDirection::Down),
        Key::D => Intent::Move(PlayerDirection::Right),
        Key::A => Intent::Move(PlayerDirection::Left),
        Key::Space => Intent::TogglePause,
        Key::Escape => Intent::Quit,
        Key::N => Intent::Restart,
        Key::P => Intent::ToggleFps,
        Key::M => Intent::ToggleMusic,
        Key::Other => Intent::Nothing,
    }
}

/// The intent that a button stands for.
pub open spec fn button_intent(button: Button) -> Intent {
    match button {
        Button::DPadUp => Intent::Move(PlayerDirection::Up),
        Button::DPadDown => Intent::Move(PlayerDirection::Down),
        Button::DPadRight => Intent::Move(PlayerDirection::Right),
        Button::DPadLeft => Intent::Move(PlayerDirection::Left),
        Button::Start => Intent::TogglePause,
        Button::Back => Intent::Quit,
        Button::A => Intent::Restart,
        Button::B => Intent::ToggleFps,
        Button::X => Intent::ToggleMusic,
        Button::Other => Intent::Nothing,
    }
}

/// The intent that a press stands for.
pub open spec fn input_intent(input_type: InputType) -> Intent {
    match input_type {
        InputType::Keyboard(key) => key_intent(key),
        InputType::Controller(button) => button_intent(button),
    }
}

/// The game after an intent was carried out.
pub open spec fn after_intent(game: GameModel, intent: Intent) -> GameModel {
    match intent {
        Intent::Move(direction) => game.steered(direction),
        Intent::TogglePause => game.pause_toggled(),
        Intent::Restart => game.restarted(),
        Intent::ToggleFps => game.fps_toggled(),
        Intent::ToggleMusic => game.music_toggled(),
        Intent::Quit => game.quit_requested(),
        Intent::Nothing => game,
    }
}

/// What carrying out an intent asks of the audio player: to stop the track
/// if the music was on and is toggled, to start it if the music was off and
/// is toggled, and nothing for any other intent.
pub open spec fn music_command(game: GameModel, intent: Intent) -> Option<MusicCommand> {
    if intent == Intent::ToggleMusic {
        if game.music {
            Some(MusicCommand::Stop)
        } else {
            Some(MusicCommand::Start)
        }
    } else {
        None
    }
}

/// The handling of input. It has no state of its own.
pub struct GameInput {}

impl GameInput {
    /// Flips the music flag of the game and says what that asks of the audio
    /// player.
    fn switch_music(context: &mut GameContext) -> (command: Option<MusicCommand>)
        ensures
            final(context)@ == old(context)@.music_toggled(),
            command == music_command(old(context)@, Intent::ToggleMusic),
    {
        if context.toggle_music() {
            Some(MusicCommand::Start)
        } else {
            Some(MusicCommand::Stop)
        }
    }

    /// Carries out the intent of a key.
    fn handle_key(context: &mut GameContext, key: Key) -> (command: Option<MusicCommand>)
        ensures
            final(context)@ == after_intent(old(context)@, key_intent(key)),
            command == music_command(old(context)@, key_intent(key)),
    {
        match key {
            Key::W => context.move_up(),
            Key::S => context.move_down(),
            Key::D => context.move_right(),
            Key::A => context.move_left(),
            Key::Space => context.toggle_pause(),
            Key::Escape => context.quit_game(),
            Key::N => context.new_game(),
            Key::P => context.toggle_fps(),
            Key::M => {
                return GameInput::switch_music(context);
            },
            _ => {},
        };
        None
    }

    /// Carries out the intent of a button.
    fn handle_controller(context: &mut GameContext, button: Button) -> (command: Option<
        MusicCommand,
    >)
        ensures
            final(context)@ == after_intent(old(context)@, button_intent(button)),
            command == music_command(old(context)@, button_intent(button)),
    {
        match button {
            Button::DPadUp => context.move_up(),
            Button::DPadDown => context.move_down(),
            Button::DPadRight => context.move_right(),
            Button::DPadLeft => context.move_left(),
            Button::Start => context.toggle_pause(),
            Button::Back => context.quit_game(),
            Button::A => context.new_game(),
            Button::B => context.toggle_fps(),
            Button::X => {
                return GameInput::switch_music(context);
            },
            _ => {},
        }
        None
    }

    /// Carries out the intent of one press on the game. The result says what
    /// the audio player is to do with the background track, if anything.
    pub fn handle_input(context: &mut GameContext, input_type: InputType) -> (command: Option<
        MusicCommand,
    >)
        ensures
            final(context)@ == after_intent(old(context)@, input_intent(input_type)),
            command == music_command(old(context)@, input_intent(input_type)),
    {
        match input_type {
            InputType::Keyboard(key) => GameInput::handle_key(context, key),
            InputType::Controller(button) => GameInput::handle_controller(context, button),
        }
    }
}

} // verus!
