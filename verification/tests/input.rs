use snake_game::gamecontext::{GameContext, GameState, PlayerDirection, SoundEffect};
use snake_game::gameinput::{Button, GameInput, InputType, Key, MusicCommand};
use snake_game::point::Point;

fn press(context: &mut GameContext, key: Key) -> Option<MusicCommand> {
    GameInput::handle_input(context, InputType::Keyboard(key))
}

fn push(context: &mut GameContext, button: Button) -> Option<MusicCommand> {
    GameInput::handle_input(context, InputType::Controller(button))
}

#[test]
fn keys_steer() {
    let mut context = GameContext::new();
    assert_eq!(press(&mut context, Key::W), None);
    assert_eq!(context.player_direction, PlayerDirection::Up);
    assert_eq!(press(&mut context, Key::A), None);
    assert_eq!(context.player_direction, PlayerDirection::Left);
    assert_eq!(press(&mut context, Key::S), None);
    assert_eq!(context.player_direction, PlayerDirection::Down);
    assert_eq!(press(&mut context, Key::D), None);
    assert_eq!(context.player_direction, PlayerDirection::Right);
    assert_eq!(press(&mut context, Key::A), None);
    assert_eq!(context.player_direction, PlayerDirection::Right);
}

#[test]
fn buttons_steer() {
    let mut context = GameContext::new();
    assert_eq!(push(&mut context, Button::DPadUp), None);
    assert_eq!(context.player_direction, PlayerDirection::Up);
    assert_eq!(push(&mut context, Button::DPadLeft), None);
    assert_eq!(context.player_direction, PlayerDirection::Left);
    assert_eq!(push(&mut context, Button::DPadDown), None);
    assert_eq!(context.player_direction, PlayerDirection::Down);
    assert_eq!(push(&mut context, Button::DPadRight), None);
    assert_eq!(context.player_direction, PlayerDirection::Right);
    assert_eq!(push(&mut context, Button::DPadLeft), None);
    assert_eq!(context.player_direction, PlayerDirection::Right);
}

#[test]
fn space_and_start_toggle_the_pause() {
    let mut context = GameContext::new();
    assert_eq!(press(&mut context, Key::Space), None);
    assert_eq!(context.state, GameState::Playing);
    assert_eq!(push(&mut context, Button::Start), None);
    assert_eq!(context.state, GameState::Paused);
}

#[test]
fn escape_and_back_ask_to_quit() {
    let mut context = GameContext::new();
    assert_eq!(press(&mut context, Key::Escape), None);
    assert!(context.quit);
    let mut other = GameContext::new();
    assert_eq!(push(&mut other, Button::Back), None);
    assert!(other.quit);
}

#[test]
fn n_and_a_start_over() {
    for by_key in [true, false] {
        let mut context = GameContext::with_grid(10, 10);
        context.player_position = vec![Point(7, 7), Point(7, 6)];
        context.player_direction = PlayerDirection::Down;
        context.state = GameState::Over;
        context.food_eaten = 5;
        context.food = Point(0, 0);
        context.sound_queue.push(SoundEffect::Thunk);
        let command = if by_key {
            press(&mut context, Key::N)
        } else {
            push(&mut context, Button::A)
        };
        assert_eq!(command, None);
        assert_eq!(context.player_position.len(), 3);
        assert!(context.player_position[0] == Point(3, 1));
        assert!(context.player_position[1] == Point(2, 1));
        assert!(context.player_position[2] == Point(1, 1));
        assert_eq!(context.player_direction, PlayerDirection::Right);
        assert_eq!(context.state, GameState::Paused);
        assert_eq!(context.food_eaten, 0);
        assert!(context.food == Point(3, 3));
        assert!(context.sound_queue.is_empty());
    }
}

#[test]
fn p_and_b_toggle_the_frame_rate() {
    let mut context = GameContext::new();
    assert_eq!(press(&mut context, Key::P), None);
    assert!(!context.show_fps);
    assert_eq!(push(&mut context, Button::B), None);
    assert!(context.show_fps);
}

#[test]
fn m_and_x_toggle_the_music() {
    let mut context = GameContext::new();
    assert_eq!(press(&mut context, Key::M), Some(MusicCommand::Stop));
    assert!(!context.music);
    assert_eq!(push(&mut context, Button::X), Some(MusicCommand::Start));
    assert!(context.music);
    assert_eq!(push(&mut context, Button::X), Some(MusicCommand::Stop));
    assert!(!context.music);
    assert_eq!(press(&mut context, Key::M), Some(MusicCommand::Start));
    assert!(context.music);
}

#[test]
fn other_presses_change_nothing() {
    let mut context = GameContext::new();
    assert_eq!(press(&mut context, Key::Other), None);
    assert_eq!(push(&mut context, Button::Other), None);
    assert_eq!(context.player_direction, PlayerDirection::Right);
    assert_eq!(context.state, GameState::Paused);
    assert!(context.show_fps);
    assert!(context.music);
    assert!(!context.quit);
    assert_eq!(context.food_eaten, 0);
    assert_eq!(context.player_position.len(), 3);
}
