use snake_game::gamecontext::{GameContext, GameState, PlayerDirection, SoundEffect};
use snake_game::gamesettings::{DOT_SIZE_IN_PXS, GRID_X_SIZE, GRID_Y_SIZE, MIN_GRID_SIZE};
use snake_game::point::Point;

fn cells(context: &GameContext) -> Vec<(i32, i32)> {
    context.player_position.iter().map(|p| (p.0, p.1)).collect()
}

fn playing(
    width: i32,
    height: i32,
    body: &[(i32, i32)],
    heading: PlayerDirection,
    food: (i32, i32),
) -> GameContext {
    let mut context = GameContext::with_grid(width, height);
    context.player_position = body.iter().map(|c| Point(c.0, c.1)).collect();
    context.player_direction = heading;
    context.food = Point(food.0, food.1);
    context.state = GameState::Playing;
    context
}

fn is_gulp(sound: SoundEffect) -> bool {
    sound == SoundEffect::Gulp1 || sound == SoundEffect::Gulp2
}

#[test]
fn settings_describe_the_default_grid() {
    assert_eq!(GRID_X_SIZE, 40);
    assert_eq!(GRID_Y_SIZE, 30);
    assert_eq!(DOT_SIZE_IN_PXS, 20);
    assert_eq!(MIN_GRID_SIZE, 4);
}

#[test]
fn new_game_opens_paused_on_the_default_grid() {
    let context = GameContext::new();
    assert_eq!(cells(&context), vec![(3, 1), (2, 1), (1, 1)]);
    assert_eq!(context.player_direction, PlayerDirection::Right);
    assert_eq!(context.state, GameState::Paused);
    assert!(context.food == Point(3, 3));
    assert_eq!(context.food_eaten, 0);
    assert_eq!(context.fps, 0);
    assert!(context.show_fps);
    assert!(context.sound_queue.is_empty());
    assert!(context.music);
    assert!(!context.quit);
    assert_eq!(context.grid_width, 40);
    assert_eq!(context.grid_height, 30);
}

#[test]
fn with_grid_keeps_the_given_size() {
    let context = GameContext::with_grid(10, 12);
    assert_eq!(context.grid_width, 10);
    assert_eq!(context.grid_height, 12);
    assert_eq!(cells(&context), vec![(3, 1), (2, 1), (1, 1)]);
    assert_eq!(context.state, GameState::Paused);
    let smallest = GameContext::with_grid(4, 4);
    assert_eq!(smallest.grid_width, 4);
    assert!(smallest.food == Point(3, 3));
}

#[test]
fn point_addition_is_component_wise() {
    let sum = Point(3, 1) + Point(1, 0);
    assert_eq!((sum.0, sum.1), (4, 1));
    let back = Point(-2, 7) + Point(-1, -9);
    assert_eq!((back.0, back.1), (-3, -2));
}

#[test]
fn points_are_equal_when_both_coordinates_are() {
    assert!(Point(2, 5) == Point(2, 5));
    assert!(Point(2, 5) != Point(5, 2));
    assert!(Point(2, 5) != Point(2, 6));
    assert!(Point(2, 5) != Point(3, 5));
}

#[test]
fn a_reversal_is_ignored_and_any_other_request_is_taken() {
    let all = [
        PlayerDirection::Up,
        PlayerDirection::Down,
        PlayerDirection::Left,
        PlayerDirection::Right,
    ];
    let opposite = |d: PlayerDirection| match d {
        PlayerDirection::Up => PlayerDirection::Down,
        PlayerDirection::Down => PlayerDirection::Up,
        PlayerDirection::Left => PlayerDirection::Right,
        PlayerDirection::Right => PlayerDirection::Left,
    };
    for heading in all {
        for request in all {
            let mut context = GameContext::new();
            context.player_direction = heading;
            context.request_direction(request);
            if request == opposite(heading) {
                assert_eq!(context.player_direction, heading);
            } else {
                assert_eq!(context.player_direction, request);
            }
        }
    }
}

#[test]
fn the_four_move_requests_steer() {
    let mut context = GameContext::new();
    context.move_left();
    assert_eq!(context.player_direction, PlayerDirection::Right);
    context.move_up();
    assert_eq!(context.player_direction, PlayerDirection::Up);
    context.move_down();
    assert_eq!(context.player_direction, PlayerDirection::Up);
    context.move_left();
    assert_eq!(context.player_direction, PlayerDirection::Left);
    context.move_right();
    assert_eq!(context.player_direction, PlayerDirection::Left);
    context.move_down();
    assert_eq!(context.player_direction, PlayerDirection::Down);
    context.move_up();
    assert_eq!(context.player_direction, PlayerDirection::Down);
    context.move_right();
    assert_eq!(context.player_direction, PlayerDirection::Right);
}

#[test]
fn ticks_change_nothing_while_paused() {
    let mut context = GameContext::new();
    for _ in 0..25 {
        context.next_tick();
        assert_eq!(cells(&context), vec![(3, 1), (2, 1), (1, 1)]);
        assert!(context.food == Point(3, 3));
        assert_eq!(context.food_eaten, 0);
        assert_eq!(context.state, GameState::Paused);
        assert!(context.sound_queue.is_empty());
    }
    context.next_tick_with(true, Point(0, 0));
    assert_eq!(cells(&context), vec![(3, 1), (2, 1), (1, 1)]);
    assert!(context.food == Point(3, 3));
}

#[test]
fn pause_toggles_between_playing_and_paused() {
    let mut context = GameContext::new();
    context.toggle_pause();
    assert_eq!(context.state, GameState::Playing);
    context.toggle_pause();
    assert_eq!(context.state, GameState::Paused);
    context.state = GameState::Over;
    context.toggle_pause();
    assert_eq!(context.state, GameState::Over);
}

#[test]
fn a_free_move_to_the_right_shifts_the_snake() {
    let mut context = playing(10, 10, &[(3, 1), (2, 1), (1, 1)], PlayerDirection::Right, (3, 3));
    context.next_tick();
    assert_eq!(cells(&context), vec![(4, 1), (3, 1), (2, 1)]);
    assert_eq!(context.state, GameState::Playing);
    assert_eq!(context.food_eaten, 0);
    assert!(context.food == Point(3, 3));
    assert!(context.sound_queue.is_empty());
}

#[test]
fn a_free_move_goes_one_cell_in_each_heading() {
    let body = [(5, 5), (5, 6), (5, 7)];
    let mut up = playing(10, 10, &body, PlayerDirection::Up, (0, 0));
    up.next_tick_with(true, Point(9, 9));
    assert_eq!(cells(&up), vec![(5, 4), (5, 5), (5, 6)]);
    let mut left = playing(10, 10, &body, PlayerDirection::Left, (0, 0));
    left.next_tick_with(true, Point(9, 9));
    assert_eq!(cells(&left), vec![(4, 5), (5, 5), (5, 6)]);
    let mut right = playing(10, 10, &body, PlayerDirection::Right, (0, 0));
    right.next_tick_with(true, Point(9, 9));
    assert_eq!(cells(&right), vec![(6, 5), (5, 5), (5, 6)]);
    let body_down = [(5, 5), (5, 4), (5, 3)];
    let mut down = playing(10, 10, &body_down, PlayerDirection::Down, (0, 0));
    down.next_tick_with(true, Point(9, 9));
    assert_eq!(cells(&down), vec![(5, 6), (5, 5), (5, 4)]);
    for context in [&up, &left, &right, &down] {
        assert_eq!(context.state, GameState::Playing);
        assert!(context.food == Point(0, 0));
        assert!(context.sound_queue.is_empty());
    }
}

#[test]
fn eating_grows_the_snake_and_moves_the_food() {
    let mut context = playing(10, 10, &[(3, 1), (2, 1), (1, 1)], PlayerDirection::Right, (4, 1));
    context.next_tick();
    assert_eq!(context.player_position.len(), 4);
    assert_eq!(cells(&context), vec![(4, 1), (3, 1), (2, 1), (4, 1)]);
    assert_eq!(context.food_eaten, 1);
    assert_eq!(context.state, GameState::Playing);
    assert_eq!(context.sound_queue.len(), 1);
    assert!(is_gulp(context.sound_queue[0]));
    assert!(0 <= context.food.0 && context.food.0 <= 9);
    assert!(0 <= context.food.1 && context.food.1 <= 9);
}

#[test]
fn eating_with_given_draws_is_exact() {
    let mut context = playing(10, 10, &[(3, 1), (2, 1), (1, 1)], PlayerDirection::Right, (4, 1));
    context.next_tick_with(true, Point(7, 2));
    assert_eq!(cells(&context), vec![(4, 1), (3, 1), (2, 1), (4, 1)]);
    assert_eq!(context.food_eaten, 1);
    assert!(context.food == Point(7, 2));
    assert_eq!(context.sound_queue, vec![SoundEffect::Gulp1]);
    assert_eq!(context.state, GameState::Playing);
    context.next_tick_with(false, Point(0, 0));
    assert_eq!(cells(&context), vec![(5, 1), (4, 1), (3, 1), (2, 1)]);
    assert_eq!(context.food_eaten, 1);
    assert!(context.food == Point(7, 2));
    assert_eq!(context.state, GameState::Playing);

    let mut second = playing(10, 10, &[(3, 1), (2, 1), (1, 1)], PlayerDirection::Right, (4, 1));
    second.next_tick_with(false, Point(0, 9));
    assert_eq!(second.sound_queue, vec![SoundEffect::Gulp2]);
    assert!(second.food == Point(0, 9));
}

#[test]
fn food_always_lands_on_the_grid() {
    let mut seen_other_than_corner = false;
    for round in 0..200 {
        let width = 4 + round % 5;
        let height = 4 + round % 3;
        let mut context = playing(width, height, &[(1, 1), (0, 1)], PlayerDirection::Right, (2, 1));
        context.next_tick();
        assert_eq!(context.food_eaten, 1);
        assert!(0 <= context.food.0 && context.food.0 < width);
        assert!(0 <= context.food.1 && context.food.1 < height);
        if context.food != Point(0, 0) {
            seen_other_than_corner = true;
        }
        assert_eq!(context.sound_queue.len(), 1);
        assert!(is_gulp(context.sound_queue[0]));
    }
    assert!(seen_other_than_corner);
}

#[test]
fn both_eating_sounds_occur() {
    let mut first = 0;
    let mut second = 0;
    for _ in 0..400 {
        let mut context = playing(10, 10, &[(1, 1), (0, 1)], PlayerDirection::Right, (2, 1));
        context.next_tick();
        match context.sound_queue[0] {
            SoundEffect::Gulp1 => first += 1,
            SoundEffect::Gulp2 => second += 1,
            other => panic!("not a sound of eating: {:?}", other),
        }
    }
    assert!(first > 0);
    assert!(second > 0);
}

#[test]
fn leaving_the_grid_on_the_right_ends_the_game() {
    let mut context = playing(10, 10, &[(9, 1), (8, 1), (7, 1)], PlayerDirection::Right, (3, 3));
    context.next_tick();
    assert_eq!(context.state, GameState::Over);
    assert_eq!(context.sound_queue, vec![SoundEffect::Thunk]);
    assert_eq!(cells(&context), vec![(10, 1), (9, 1), (8, 1)]);
    assert_eq!(context.food_eaten, 0);
    assert!(context.food == Point(3, 3));
    context.next_tick();
    context.next_tick_with(true, Point(5, 5));
    assert_eq!(context.state, GameState::Over);
    assert_eq!(context.sound_queue, vec![SoundEffect::Thunk]);
    assert_eq!(cells(&context), vec![(10, 1), (9, 1), (8, 1)]);
    assert!(context.food == Point(3, 3));
}

#[test]
fn every_wall_ends_the_game() {
    let mut left = playing(10, 8, &[(0, 4), (1, 4), (2, 4)], PlayerDirection::Left, (3, 3));
    left.next_tick();
    assert_eq!(cells(&left), vec![(-1, 4), (0, 4), (1, 4)]);
    let mut top = playing(10, 8, &[(4, 0), (4, 1), (4, 2)], PlayerDirection::Up, (3, 3));
    top.next_tick();
    assert_eq!(cells(&top), vec![(4, -1), (4, 0), (4, 1)]);
    let mut bottom = playing(10, 8, &[(4, 7), (4, 6), (4, 5)], PlayerDirection::Down, (3, 3));
    bottom.next_tick();
    assert_eq!(cells(&bottom), vec![(4, 8), (4, 7), (4, 6)]);
    let mut right = playing(10, 8, &[(9, 4), (8, 4), (7, 4)], PlayerDirection::Right, (3, 3));
    right.next_tick();
    assert_eq!(cells(&right), vec![(10, 4), (9, 4), (8, 4)]);
    for context in [&left, &top, &bottom, &right] {
        assert_eq!(context.state, GameState::Over);
        assert_eq!(context.sound_queue, vec![SoundEffect::Thunk]);
    }
}

#[test]
fn the_last_row_and_column_are_on_the_grid() {
    let mut context = playing(10, 8, &[(8, 7), (7, 7), (6, 7)], PlayerDirection::Right, (3, 3));
    context.next_tick();
    assert_eq!(cells(&context), vec![(9, 7), (8, 7), (7, 7)]);
    assert_eq!(context.state, GameState::Playing);
    assert!(context.sound_queue.is_empty());
    let mut corner = playing(10, 8, &[(1, 0), (2, 0), (3, 0)], PlayerDirection::Left, (3, 3));
    corner.next_tick();
    assert_eq!(cells(&corner), vec![(0, 0), (1, 0), (2, 0)]);
    assert_eq!(corner.state, GameState::Playing);
}

#[test]
fn running_into_the_body_ends_the_game() {
    let body = [(2, 2), (2, 3), (3, 3), (3, 2), (4, 2)];
    let mut context = playing(10, 10, &body, PlayerDirection::Right, (8, 8));
    context.next_tick();
    assert_eq!(context.state, GameState::Over);
    assert_eq!(context.sound_queue, vec![SoundEffect::Selfbite]);
    assert_eq!(cells(&context), vec![(3, 2), (2, 2), (2, 3), (3, 3), (3, 2)]);
    assert_eq!(context.food_eaten, 0);
    context.next_tick();
    assert_eq!(context.sound_queue, vec![SoundEffect::Selfbite]);
    assert_eq!(cells(&context), vec![(3, 2), (2, 2), (2, 3), (3, 3), (3, 2)]);
}

#[test]
fn following_the_tail_is_no_collision() {
    let body = [(1, 1), (1, 2), (2, 2), (2, 1)];
    let mut context = playing(10, 10, &body, PlayerDirection::Right, (8, 8));
    context.next_tick();
    assert_eq!(context.state, GameState::Playing);
    assert!(context.sound_queue.is_empty());
    assert_eq!(cells(&context), vec![(2, 1), (1, 1), (1, 2), (2, 2)]);
}

#[test]
fn every_segment_under_the_head_is_one_bite() {
    let body = [(2, 2), (3, 2), (3, 3), (3, 2), (4, 2), (5, 2)];
    let mut context = playing(10, 10, &body, PlayerDirection::Right, (8, 8));
    context.next_tick();
    assert_eq!(context.state, GameState::Over);
    assert_eq!(context.sound_queue, vec![SoundEffect::Selfbite, SoundEffect::Selfbite]);
}

#[test]
fn a_bite_on_the_food_still_feeds() {
    let body = [(2, 2), (2, 3), (3, 3), (3, 2), (4, 2)];
    let mut context = playing(10, 10, &body, PlayerDirection::Right, (3, 2));
    context.next_tick_with(false, Point(6, 6));
    assert_eq!(context.state, GameState::Over);
    assert_eq!(context.sound_queue, vec![SoundEffect::Selfbite, SoundEffect::Gulp2]);
    assert_eq!(cells(&context), vec![(3, 2), (2, 2), (2, 3), (3, 3), (3, 2), (3, 2)]);
    assert_eq!(context.food_eaten, 1);
    assert!(context.food == Point(6, 6));
}

#[test]
fn food_off_the_grid_is_eaten_after_the_wall_is_hit() {
    let mut context = playing(10, 10, &[(9, 1), (8, 1)], PlayerDirection::Right, (10, 1));
    context.next_tick_with(true, Point(2, 2));
    assert_eq!(context.state, GameState::Over);
    assert_eq!(context.sound_queue, vec![SoundEffect::Thunk, SoundEffect::Gulp1]);
    assert_eq!(cells(&context), vec![(10, 1), (9, 1), (10, 1)]);
    assert_eq!(context.food_eaten, 1);
}

#[test]
fn a_head_off_the_grid_both_ways_hits_the_wall_once() {
    let mut context = playing(10, 10, &[(-3, -3), (-3, -2)], PlayerDirection::Up, (3, 3));
    context.next_tick();
    assert_eq!(context.state, GameState::Over);
    assert_eq!(context.sound_queue, vec![SoundEffect::Thunk]);
}

#[test]
fn sounds_queue_up_behind_those_not_yet_taken() {
    let mut context = playing(10, 10, &[(3, 1), (2, 1), (1, 1)], PlayerDirection::Right, (4, 1));
    context.sound_queue.push(SoundEffect::Thunk);
    context.next_tick_with(false, Point(5, 5));
    assert_eq!(context.sound_queue, vec![SoundEffect::Thunk, SoundEffect::Gulp2]);
}

#[test]
fn restart_gives_the_opening_position_in_every_phase() {
    for state in [GameState::Playing, GameState::Paused, GameState::Over] {
        let body = [(7, 7), (7, 6), (7, 5), (7, 4)];
        let mut context = playing(10, 9, &body, PlayerDirection::Down, (1, 1));
        context.state = state;
        context.food_eaten = 17;
        context.sound_queue.push(SoundEffect::Thunk);
        context.sound_queue.push(SoundEffect::Gulp1);
        context.show_fps = false;
        context.music = false;
        context.quit = true;
        context.fps = 144;
        context.new_game();
        assert_eq!(cells(&context), vec![(3, 1), (2, 1), (1, 1)]);
        assert_eq!(context.player_direction, PlayerDirection::Right);
        assert!(context.food == Point(3, 3));
        assert_eq!(context.food_eaten, 0);
        assert_eq!(context.state, GameState::Paused);
        assert!(context.sound_queue.is_empty());
        assert!(!context.show_fps);
        assert!(!context.music);
        assert!(context.quit);
        assert_eq!(context.fps, 144);
        assert_eq!(context.grid_width, 10);
        assert_eq!(context.grid_height, 9);
    }
}

#[test]
fn a_game_can_be_played_again_after_it_ended() {
    let mut context = playing(10, 10, &[(9, 1), (8, 1), (7, 1)], PlayerDirection::Right, (3, 3));
    context.next_tick();
    assert_eq!(context.state, GameState::Over);
    context.new_game();
    context.toggle_pause();
    context.next_tick();
    assert_eq!(context.state, GameState::Playing);
    assert_eq!(cells(&context), vec![(4, 1), (3, 1), (2, 1)]);
}

#[test]
fn flags_toggle() {
    let mut context = GameContext::new();
    context.toggle_fps();
    assert!(!context.show_fps);
    context.toggle_fps();
    assert!(context.show_fps);
    assert!(!context.toggle_music());
    assert!(!context.music);
    assert!(context.toggle_music());
    assert!(context.music);
}

#[test]
fn quit_is_recorded() {
    let mut context = GameContext::new();
    assert!(!context.is_quit_requested());
    context.quit_game();
    assert!(context.quit);
    assert!(context.is_quit_requested());
    context.quit_game();
    assert!(context.is_quit_requested());
}

#[test]
fn sounds_are_drained_oldest_first() {
    let body = [(2, 2), (2, 3), (3, 3), (3, 2), (4, 2)];
    let mut context = playing(10, 10, &body, PlayerDirection::Right, (3, 2));
    context.next_tick_with(true, Point(6, 6));
    let events = context.drain_sound_events();
    assert_eq!(events, vec![SoundEffect::Selfbite, SoundEffect::Gulp1]);
    assert!(context.sound_queue.is_empty());
    assert!(context.drain_sound_events().is_empty());
    assert_eq!(context.state, GameState::Over);
    assert_eq!(context.food_eaten, 1);
}

#[test]
fn a_snapshot_copies_what_is_drawn() {
    let mut context = playing(10, 10, &[(3, 1), (2, 1), (1, 1)], PlayerDirection::Right, (4, 1));
    context.fps = 60;
    let before = context.snapshot();
    context.next_tick_with(true, Point(7, 2));
    assert_eq!(before.player_position.len(), 3);
    assert!(before.player_position[0] == Point(3, 1));
    assert!(before.player_position[2] == Point(1, 1));
    assert!(before.food == Point(4, 1));
    assert_eq!(before.state, GameState::Playing);
    assert_eq!(before.food_eaten, 0);
    assert_eq!(before.fps, 60);
    assert!(before.show_fps);
    let after = context.snapshot();
    assert_eq!(after.player_position.len(), 4);
    assert!(after.food == Point(7, 2));
    assert_eq!(after.food_eaten, 1);
}

#[test]
fn can_tick_tells_when_a_tick_fits() {
    let mut context = GameContext::new();
    assert!(context.can_tick());
    context.toggle_pause();
    assert!(context.can_tick());

    let mut empty = playing(10, 10, &[], PlayerDirection::Right, (3, 3));
    assert!(!empty.can_tick());
    empty.state = GameState::Paused;
    assert!(empty.can_tick());

    let far_right = playing(10, 10, &[(i32::MAX, 0)], PlayerDirection::Right, (3, 3));
    assert!(!far_right.can_tick());
    let far_left = playing(10, 10, &[(i32::MIN, 0)], PlayerDirection::Left, (3, 3));
    assert!(!far_left.can_tick());
    let far_up = playing(10, 10, &[(0, i32::MIN)], PlayerDirection::Up, (3, 3));
    assert!(!far_up.can_tick());
    let far_down = playing(10, 10, &[(0, i32::MAX)], PlayerDirection::Down, (3, 3));
    assert!(!far_down.can_tick());
    let turning = playing(10, 10, &[(i32::MAX, 0)], PlayerDirection::Down, (3, 3));
    assert!(turning.can_tick());

    let mut full = playing(10, 10, &[(3, 1), (2, 1)], PlayerDirection::Right, (4, 1));
    full.food_eaten = u32::MAX;
    assert!(!full.can_tick());
    full.food = Point(5, 1);
    assert!(full.can_tick());
    full.food = Point(4, 1);
    full.food_eaten = u32::MAX - 1;
    assert!(full.can_tick());
    full.next_tick();
    assert_eq!(full.food_eaten, u32::MAX);

    let mut flat = playing(10, 10, &[(3, 1), (2, 1)], PlayerDirection::Right, (4, 1));
    flat.grid_height = 0;
    assert!(!flat.can_tick());
    flat.grid_height = 1;
    flat.grid_width = 0;
    assert!(!flat.can_tick());
}
