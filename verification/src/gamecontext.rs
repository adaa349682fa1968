//! The state of one game and the operations that change it.
//!
//! Each operation of [`GameContext`] is specified as a function on
//! [`GameModel`], the view of the game.

use crate::chance::{random_in, random_ratio};
use crate::gamemodel::{gulp, in_grid, opening_body, selfbites, GameModel};
use crate::gamesettings::{GRID_X_SIZE, GRID_Y_SIZE, MIN_GRID_SIZE};
use crate::point::{representable, Point};
use crate::theorems::lemma_tick_keeps_inv;
use rand::thread_rng;
use vstd::prelude::*;

verus! {

/// The phase a game is in.
#[derive(Copy, Clone, Debug, PartialEq, Eq, Structural)]
pub enum GameState {
    Playing,
    Paused,
    Over,
}

/// The heading of the snake.
#[derive(Copy, Clone, Debug, PartialEq, Eq, Structural)]
pub enum PlayerDirection {
    Up,
    Down,
    Left,
    Right,
}

/// A sound that the game asks the audio player for.
#[derive(Copy, Clone, Debug, PartialEq, Eq, Structural)]
pub enum SoundEffect {
    /// Eating, first variant.
    Gulp1,
    /// Eating, second variant.
    Gulp2,
    /// Running into a wall.
    Thunk,
    /// Running into the snake's own body.
    Selfbite,
}

/// How many of the segments `1..upto` of `cells` lie on the cell of the
/// first.
spec fn bites_among(cells: Seq<(int, int)>, upto: int) -> nat {
    cells.subrange(1, upto).to_multiset().count(cells[0])
}

/// No segment has been looked at before the first one behind the head.
proof fn lemma_bites_among_none(cells: Seq<(int, int)>)
    requires
        cells.len() >= 1,
    ensures
        bites_among(cells, 1) == 0,
        selfbites(0) =~= Seq::<SoundEffect>::empty(),
{
    broadcast use vstd::seq_lib::group_to_multiset_ensures;

    assert(cells.subrange(1, 1) =~= Seq::<(int, int)>::empty());
    assert(cells.subrange(1, 1).to_multiset().len() == 0);
}

/// Looking at one segment more counts it if it lies on the head's cell.
proof fn lemma_bites_among_next(cells: Seq<(int, int)>, upto: int)
    requires
        1 <= upto < cells.len(),
    ensures
        bites_among(cells, upto + 1) == bites_among(cells, upto) + if cells[upto] == cells[0] {
            1nat
        } else {
            0nat
        },
        selfbites(bites_among(cells, upto) + 1) =~= selfbites(bites_among(cells, upto)).push(
            SoundEffect::Selfbite,
        ),
{
    broadcast use vstd::seq_lib::group_to_multiset_ensures;

    assert(cells.subrange(1, upto + 1) =~= cells.subrange(1, upto).push(cells[upto]));
}

/// A game: where the snake is, where it is heading, where the food lies,
/// and what the player has asked for.
pub struct GameContext {
    /// The cells of the snake, head first.
    pub player_position: Vec<Point>,
    /// The heading that the next tick moves in.
    pub player_direction: PlayerDirection,
    /// The cell where the food lies.
    pub food: Point,
    /// The phase of the game.
    pub state: GameState,
    /// How many times the snake has eaten since the game opened.
    pub food_eaten: u32,
    /// The frame rate that the driver last reported.
    pub fps: i32,
    /// Whether the frame rate is shown.
    pub show_fps: bool,
    /// The sounds that were asked for and not yet taken, oldest first.
    pub sound_queue: Vec<SoundEffect>,
    /// Whether the background music is on.
    pub music: bool,
    /// Whether the player has asked to leave.
    pub quit: bool,
    /// Number of columns of the grid.
    pub grid_width: i32,
    /// Number of rows of the grid.
    pub grid_height: i32,
}

impl View for GameContext {
    type V = GameModel;

    open spec fn view(&self) -> GameModel {
        GameModel {
            body: self.player_position@.map_values(|p: Point| p@),
            direction: self.player_direction,
            food: self.food@,
            state: self.state,
            score: self.food_eaten as nat,
            fps: self.fps as int,
            show_fps: self.show_fps,
            sounds: self.sound_queue@,
            music: self.music,
            quit: self.quit,
            width: self.grid_width as int,
            height: self.grid_height as int,
        }
    }
}

/// What a renderer needs of a game, copied out of it.
pub struct Snapshot {
    /// The cells of the snake, head first.
    pub player_position: Vec<Point>,
    /// The cell where the food lies.
    pub food: Point,
    /// The phase of the game.
    pub state: GameState,
    /// How many times the snake has eaten since the game opened.
    pub food_eaten: u32,
    /// The frame rate that the driver last reported.
    pub fps: i32,
    /// Whether the frame rate is shown.
    pub show_fps: bool,
}

impl GameContext {
    /// A fresh game on the default grid.
    pub fn new() -> (context: GameContext)
        ensures
            context@ == GameModel::opening(GRID_X_SIZE as int, GRID_Y_SIZE as int),
    {
        GameContext::with_grid(GRID_X_SIZE as i32, GRID_Y_SIZE as i32)
    }

    /// A fresh game on a grid of the given size. The grid must have room for
    /// the opening snake and the opening food: four columns and four rows at
    /// least.
    pub fn with_grid(width: i32, height: i32) -> (context: GameContext)
        requires
            width >= MIN_GRID_SIZE,
            height >= MIN_GRID_SIZE,
        ensures
            context@ == GameModel::opening(width as int, height as int),
    {
        let context = GameContext {
            player_position: vec![Point(3, 1), Point(2, 1), Point(1, 1)],
            player_direction: PlayerDirection::Right,
            state: GameState::Paused,
            food: Point(3, 3),
            food_eaten: 0,
            fps: 0,
            show_fps: true,
            sound_queue: Vec::new(),
            music: true,
            quit: false,
            grid_width: width,
            grid_height: height,
        };
        assert(context@.body =~= opening_body());
        context
    }

    /// Starts the game over, whatever phase it is in: snake, heading, food,
    /// score and phase are those of a fresh game. Sounds that were asked for
    /// and not yet taken are dropped. The display flags, the music flag, the
    /// quit flag and the grid stay as they are.
    pub fn new_game(&mut self)
        ensures
            final(self)@ == old(self)@.restarted(),
    {
        self.player_position = vec![Point(3, 1), Point(2, 1), Point(1, 1)];
        self.player_direction = PlayerDirection::Right;
        self.state = GameState::Paused;
        self.food = Point(3, 3);
        self.food_eaten = 0;
        self.sound_queue.clear();
        assert(self@.body =~= opening_body());
    }

    /// Asks for a heading. The request is ignored if it would reverse the
    /// snake; otherwise it holds from the next tick on.
    pub fn request_direction(&mut self, direction: PlayerDirection)
        ensures
            final(self)@ == old(self)@.steered(direction),
    {
        match direction {
            PlayerDirection::Up => self.move_up(),
            PlayerDirection::Down => self.move_down(),
            PlayerDirection::Right => self.move_right(),
            PlayerDirection::Left => self.move_left(),
        }
    }

    /// Asks for the heading up.
    pub fn move_up(&mut self)
        ensures
            final(self)@ == old(self)@.steered(PlayerDirection::Up),
    {
        if self.player_direction != PlayerDirection::Down {
            self.player_direction = PlayerDirection::Up;
        }
    }

    /// Asks for the heading down.
    pub fn move_down(&mut self)
        ensures
            final(self)@ == old(self)@.steered(PlayerDirection::Down),
    {
        if self.player_direction != PlayerDirection::Up {
            self.player_direction = PlayerDirection::Down;
        }
    }

    /// Asks for the heading right.
    pub fn move_right(&mut self)
        ensures
            final(self)@ == old(self)@.steered(PlayerDirection::Right),
    {
        if self.player_direction != PlayerDirection::Left {
            self.player_direction = PlayerDirection::Right;
        }
    }

    /// Asks for the heading left.
    pub fn move_left(&mut self)
        ensures
            final(self)@ == old(self)@.steered(PlayerDirection::Left),
    {
        if self.player_direction != PlayerDirection::Right {
            self.player_direction = PlayerDirection::Left;
        }
    }

    /// Pauses a game that is being played and resumes one that is paused. A
    /// game that is over stays over.
    pub fn toggle_pause(&mut self)
        ensures
            final(self)@ == old(self)@.pause_toggled(),
    {
        self.state = match self.state {
            GameState::Playing => GameState::Paused,
            GameState::Paused => GameState::Playing,
            GameState::Over => GameState::Over,
        }
    }

    /// Shows the frame rate if it is hidden, hides it if it is shown.
    pub fn toggle_fps(&mut self)
        ensures
            final(self)@ == old(self)@.fps_toggled(),
    {
        self.show_fps = match self.show_fps {
            true => false,
            false => true,
        };
    }

    /// Flips the music flag and returns its new value. Starting and stopping
    /// the track is the audio player's part.
    pub fn toggle_music(&mut self) -> (music: bool)
        ensures
            final(self)@ == old(self)@.music_toggled(),
            music == !old(self)@.music,
    {
        self.music = !self.music;
        self.music
    }

    /// Records that the player has asked to leave.
    pub fn quit_game(&mut self)
        ensures
            final(self)@ == old(self)@.quit_requested(),
    {
        self.quit = true;
    }

    /// Whether the player has asked to leave.
    pub fn is_quit_requested(&self) -> (quit: bool)
        ensures
            quit == self@.quit,
    {
        self.quit
    }

    /// Takes the sounds that were asked for since the queue was last
    /// drained, oldest first, and leaves the queue empty.
    pub fn drain_sound_events(&mut self) -> (events: Vec<SoundEffect>)
        ensures
            events@ == old(self)@.sounds,
            final(self)@ == old(self)@.drained(),
    {
        let mut events: Vec<SoundEffect> = Vec::new();
        std::mem::swap(&mut events, &mut self.sound_queue);
        events
    }

    /// A copy of what a renderer draws: the snake, the food, the phase, the
    /// score and the frame-rate display.
    pub fn snapshot(&self) -> (snapshot: Snapshot)
        ensures
            snapshot.player_position@ == self.player_position@,
            snapshot.food == self.food,
            snapshot.state == self.state,
            snapshot.food_eaten == self.food_eaten,
            snapshot.fps == self.fps,
            snapshot.show_fps == self.show_fps,
    {
        Snapshot {
            player_position: self.player_position.clone(),
            food: self.food,
            state: self.state,
            food_eaten: self.food_eaten,
            fps: self.fps,
            show_fps: self.show_fps,
        }
    }

    /// Whether the game can take a tick within what the machine can hold.
    /// A caller that Verus does not check asks this before a tick.
    pub fn can_tick(&self) -> (fits: bool)
        ensures
            fits == (self@.tick_fits() && self@.has_cells()),
    {
        if self.grid_width < 1 || self.grid_height < 1 {
            return false;
        }
        if self.state != GameState::Playing {
            return true;
        }
        if self.player_position.len() == 0 {
            return false;
        }
        let head = self.player_position[0];
        let food = self.food;
        let room = self.food_eaten < u32::MAX;
        match self.player_direction {
            PlayerDirection::Up => head.1 > i32::MIN && (room || head.0 != food.0 || head.1 - 1
                != food.1),
            PlayerDirection::Down => head.1 < i32::MAX && (room || head.0 != food.0 || head.1 + 1
                != food.1),
            PlayerDirection::Right => head.0 < i32::MAX && (room || head.0 + 1 != food.0 || head.1
                != food.1),
            PlayerDirection::Left => head.0 > i32::MIN && (room || head.0 - 1 != food.0 || head.1
                != food.1),
        }
    }

    /// Advances the game by one tick. Nothing happens unless the game is
    /// being played. Otherwise the snake moves one cell in its heading and
    /// the collisions of the moved snake are resolved: first with the wall,
    /// then with its own body, then with the food. If the snake eats, chance
    /// picks the variant of the sound and a cell of the grid for the new
    /// food; the outcome is that of [`GameContext::next_tick_with`] for what
    /// chance picked.
    pub fn next_tick(&mut self)
        requires
            old(self)@.tick_fits(),
            old(self)@.has_cells(),
        ensures
            exists|first_gulp: bool, new_food: (int, int)|
                in_grid(new_food, old(self)@.width, old(self)@.height) && final(self)@ == old(
                    self,
                )@.tick(first_gulp, new_food),
            old(self)@.inv() ==> final(self)@.inv(),
    {
        if let GameState::Over = self.state {
            assert(self@ == old(self)@.tick(true, (0, 0)));
            return ;
        }
        if let GameState::Paused = self.state {
            assert(self@ == old(self)@.tick(true, (0, 0)));
            return ;
        }
        self.advance();
        self.check_collision();
        let ghost moved = old(self)@.shifted();
        let ghost (first_gulp, new_food) = choose|first_gulp: bool, new_food: (int, int)|
            in_grid(new_food, moved.width, moved.height) && self@ == moved.resolved(
                first_gulp,
                new_food,
            );
        assert(self@ == old(self)@.tick(first_gulp, new_food));
        proof {
            if old(self)@.inv() {
                lemma_tick_keeps_inv(old(self)@, first_gulp, new_food);
            }
        }
    }

    /// Advances the game by one tick as [`GameContext::next_tick`] does, with
    /// the caller in the place of chance: if the snake eats at this tick, the
    /// sound is the first variant exactly if `first_gulp` holds, and the new
    /// food lies at `new_food`. Otherwise the two are ignored.
    pub fn next_tick_with(&mut self, first_gulp: bool, new_food: Point)
        requires
            old(self)@.tick_fits(),
        ensures
            final(self)@ == old(self)@.tick(first_gulp, new_food@),
    {
        if let GameState::Over = self.state {
            return ;
        }
        if let GameState::Paused = self.state {
            return ;
        }
        self.advance();
        self.check_collision_with(first_gulp, new_food);
    }

    /// Moves the snake one cell in its heading.
    fn advance(&mut self)
        requires
            old(self)@.body.len() >= 1,
            representable(old(self)@.next_head()),
        ensures
            final(self)@ == old(self)@.shifted(),
    {
        let head_position = self.player_position[0];
        let next_head_position = match self.player_direction {
            PlayerDirection::Up => head_position + Point(0, -1),
            PlayerDirection::Down => head_position + Point(0, 1),
            PlayerDirection::Right => head_position + Point(1, 0),
            PlayerDirection::Left => head_position + Point(-1, 0),
        };
        self.player_position.pop();
        self.player_position.insert(0, next_head_position);
        assert(self@.body =~= old(self)@.shifted().body);
    }

    /// Ends the game if the head has left the grid or lies on a segment
    /// behind it, and asks for the sounds of that.
    fn check_crash(&mut self)
        requires
            old(self)@.body.len() >= 1,
        ensures
            final(self)@ == (GameModel {
                state: if old(self)@.crashed() {
                    GameState::Over
                } else {
                    old(self)@.state
                },
                sounds: old(self)@.sounds + old(self)@.crash_sounds(),
                ..old(self)@
            }),
    {
        let ghost start = self@;
        let head = self.player_position[0];
        if head.0 < 0 || head.0 >= self.grid_width || head.1 < 0 || head.1 >= self.grid_height {
            self.sound_queue.push(SoundEffect::Thunk);
            self.game_over();
        }
        let ghost struck = self@;
        let ghost cells = start.body;
        proof {
            lemma_bites_among_none(cells);
        }
        let mut i: usize = 1;
        while i < self.player_position.len()
            invariant
                1 <= i <= cells.len(),
                cells.len() == self.player_position.len(),
                cells == self.player_position@.map_values(|p: Point| p@),
                struck.body == cells,
                self@ =~= (GameModel {
                    state: if bites_among(cells, i as int) > 0 {
                        GameState::Over
                    } else {
                        struck.state
                    },
                    sounds: struck.sounds + selfbites(bites_among(cells, i as int)),
                    ..struck
                }),
            decreases self.player_position.len() - i,
        {
            proof {
                lemma_bites_among_next(cells, i as int);
            }
            if self.player_position[0] == self.player_position[i] {
                self.sound_queue.push(SoundEffect::Selfbite);
                self.game_over();
            }
            i += 1;
        }
        assert(cells.subrange(1, i as int) =~= cells.skip(1));
        assert(self@.sounds =~= start.sounds + start.crash_sounds());
    }

    /// Resolves the collisions of a snake that has just moved. Chance picks
    /// the variant of the sound of eating and the cell of the new food.
    fn check_collision(&mut self)
        requires
            old(self)@.body.len() >= 1,
            old(self)@.has_cells(),
            old(self)@.on_food() ==> old(self)@.score < u32::MAX,
        ensures
            exists|first_gulp: bool, new_food: (int, int)|
                in_grid(new_food, old(self)@.width, old(self)@.height) && final(self)@ == old(
                    self,
                )@.resolved(first_gulp, new_food),
    {
        self.check_crash();
        if self.player_position[0] == self.food {
            let mut rng = thread_rng();
            let gulp1 = random_ratio(&mut rng, 1, 2);
            self.swallow(gulp1);
            self.spawn_food();
            assert(self@ =~= old(self)@.resolved(gulp1, self@.food));
        } else {
            assert(self@ =~= old(self)@.resolved(true, (0, 0)));
        }
    }

    /// Resolves the collisions of a snake that has just moved, with
    /// `first_gulp` and `new_food` in the place of what chance picks.
    fn check_collision_with(&mut self, first_gulp: bool, new_food: Point)
        requires
            old(self)@.body.len() >= 1,
            old(self)@.on_food() ==> old(self)@.score < u32::MAX,
        ensures
            final(self)@ == old(self)@.resolved(first_gulp, new_food@),
    {
        self.check_crash();
        if self.player_position[0] == self.food {
            self.swallow(first_gulp);
            self.food = new_food;
        }
        assert(self@ =~= old(self)@.resolved(first_gulp, new_food@));
    }

    /// Lets the snake grow by a segment on the cell of the food, counts the
    /// meal and asks for the sound of it.
    fn swallow(&mut self, first_gulp: bool)
        requires
            old(self)@.score < u32::MAX,
        ensures
            final(self)@ == (GameModel {
                body: old(self)@.body.push(old(self)@.food),
                score: old(self)@.score + 1,
                sounds: old(self)@.sounds.push(gulp(first_gulp)),
                ..old(self)@
            }),
    {
        let tail = self.food;
        self.player_position.push(tail);
        self.food_eaten += 1;
        let random_gulp = match first_gulp {
            true => SoundEffect::Gulp1,
            false => SoundEffect::Gulp2,
        };
        self.sound_queue.push(random_gulp);
        assert(self@.body =~= old(self)@.body.push(old(self)@.food));
    }

    /// Puts the food on a cell of the grid that chance picks. The cell may
    /// be one that the snake lies on.
    fn spawn_food(&mut self)
        requires
            old(self)@.has_cells(),
        ensures
            in_grid(final(self)@.food, old(self)@.width, old(self)@.height),
            final(self)@ == (GameModel { food: final(self)@.food, ..old(self)@ }),
    {
        let mut rng = thread_rng();
        let x = random_in(&mut rng, 0, self.grid_width);
        let y = random_in(&mut rng, 0, self.grid_height);
        let new_food = Point(x, y);
        self.food = new_food;
    }

    /// Ends the game.
    fn game_over(&mut self)
        ensures
            final(self)@ == (GameModel { state: GameState::Over, ..old(self)@ }),
    {
        self.state = GameState::Over;
    }
}

} // verus!
