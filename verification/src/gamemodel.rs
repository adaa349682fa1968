//! The game as mathematics.
//!
//! Positions are pairs of unbounded integers, the snake and the sound queue
//! are sequences, and every operation of the game is a function from one
//! [`GameModel`] to the next.

use crate::gamecontext::{GameState, PlayerDirection, SoundEffect};
use crate::point::{cell_sum, representable};
use vstd::prelude::*;

verus! {

/// The heading that points the other way.
pub open spec fn opposite(direction: PlayerDirection) -> PlayerDirection {
    match direction {
        PlayerDirection::Up => PlayerDirection::Down,
        PlayerDirection::Down => PlayerDirection::Up,
        PlayerDirection::Left => PlayerDirection::Right,
        PlayerDirection::Right => PlayerDirection::Left,
    }
}

/// The step that one tick takes in the given heading. Rows grow downwards.
pub open spec fn unit_step(direction: PlayerDirection) -> (int, int) {
    match direction {
        PlayerDirection::Up => (0, -1),
        PlayerDirection::Down => (0, 1),
        PlayerDirection::Right => (1, 0),
        PlayerDirection::Left => (-1, 0),
    }
}

/// Whether `cell` lies on a grid of the given width and height.
pub open spec fn in_grid(cell: (int, int), width: int, height: int) -> bool {
    &&& 0 <= cell.0 <= width - 1
    &&& 0 <= cell.1 <= height - 1
}

/// The sound of eating: one of two variants, told apart by `first`.
pub open spec fn gulp(first: bool) -> SoundEffect {
    if first {
        SoundEffect::Gulp1
    } else {
        SoundEffect::Gulp2
    }
}

/// Whether a sound is one of the two sounds of eating.
pub open spec fn is_gulp(sound: SoundEffect) -> bool {
    sound == SoundEffect::Gulp1 || sound == SoundEffect::Gulp2
}

/// The sound of biting oneself, `count` times over.
pub open spec fn selfbites(count: nat) -> Seq<SoundEffect> {
    Seq::new(count, |i: int| SoundEffect::Selfbite)
}

/// The snake that every game opens with: three cells in a row, head first.
pub open spec fn opening_body() -> Seq<(int, int)> {
    seq![(3, 1), (2, 1), (1, 1)]
}

/// The cell where the food lies when a game opens.
pub open spec fn opening_food() -> (int, int) {
    (3, 3)
}

/// The game as a mathematical value.
#[verifier::ext_equal]
pub struct GameModel {
    /// The cells of the snake, head first, tail last.
    pub body: Seq<(int, int)>,
    /// The heading that the next tick moves in.
    pub direction: PlayerDirection,
    /// The cell where the food lies.
    pub food: (int, int),
    /// The phase of the game.
    pub state: GameState,
    /// How many times the snake has eaten since the game opened.
    pub score: nat,
    /// The frame rate that the driver last reported.
    pub fps: int,
    /// Whether the frame rate is shown.
    pub show_fps: bool,
    /// The sounds that were asked for and not yet taken, oldest first.
    pub sounds: Seq<SoundEffect>,
    /// Whether the background music is on.
    pub music: bool,
    /// Whether the player has asked to leave.
    pub quit: bool,
    /// Number of columns of the grid.
    pub width: int,
    /// Number of rows of the grid.
    pub height: int,
}

impl GameModel {
    /// The cell of the snake's head.
    pub open spec fn head(self) -> (int, int) {
        self.body[0]
    }

    /// The cell that the head enters at the next tick.
    pub open spec fn next_head(self) -> (int, int) {
        cell_sum(self.head(), unit_step(self.direction))
    }

    /// What every reachable game satisfies: the grid has room for the
    /// opening snake, the snake has a head, the food and every segment
    /// behind the head lie on the grid, and as long as the game is not over
    /// the head lies on the grid too.
    pub open spec fn inv(self) -> bool {
        &&& self.width >= 4
        &&& self.height >= 4
        &&& self.body.len() >= 1
        &&& in_grid(self.food, self.width, self.height)
        &&& forall|i: int|
            1 <= i < self.body.len() ==> in_grid(#[trigger] self.body[i], self.width, self.height)
        &&& self.state != GameState::Over ==> in_grid(self.head(), self.width, self.height)
    }

    /// A game as it opens: the opening snake heading right, the food on its
    /// opening cell, nothing eaten, no sound asked for, and the game paused.
    /// The display flags, the music flag, the quit flag and the grid are
    /// those of `self`.
    pub open spec fn restarted(self) -> GameModel {
        GameModel {
            body: opening_body(),
            direction: PlayerDirection::Right,
            food: opening_food(),
            state: GameState::Paused,
            score: 0,
            sounds: Seq::empty(),
            ..self
        }
    }

    /// A fresh game on a grid of the given size.
    pub open spec fn opening(width: int, height: int) -> GameModel {
        GameModel {
            body: opening_body(),
            direction: PlayerDirection::Right,
            food: opening_food(),
            state: GameState::Paused,
            score: 0,
            fps: 0,
            show_fps: true,
            sounds: Seq::empty(),
            music: true,
            quit: false,
            width,
            height,
        }
    }

    /// The game after the player asked for `direction`: the heading changes
    /// unless the request would reverse it.
    pub open spec fn steered(self, direction: PlayerDirection) -> GameModel {
        GameModel {
            direction: if direction == opposite(self.direction) {
                self.direction
            } else {
                direction
            },
            ..self
        }
    }

    /// The game after the pause intent: playing and paused change places, a
    /// game that is over stays over.
    pub open spec fn pause_toggled(self) -> GameModel {
        GameModel {
            state: match self.state {
                GameState::Playing => GameState::Paused,
                GameState::Paused => GameState::Playing,
                GameState::Over => GameState::Over,
            },
            ..self
        }
    }

    /// The game with the frame-rate display flipped.
    pub open spec fn fps_toggled(self) -> GameModel {
        GameModel { show_fps: !self.show_fps, ..self }
    }

    /// The game with the music flag flipped.
    pub open spec fn music_toggled(self) -> GameModel {
        GameModel { music: !self.music, ..self }
    }

    /// The game after the player asked to leave.
    pub open spec fn quit_requested(self) -> GameModel {
        GameModel { quit: true, ..self }
    }

    /// The game with its sound queue emptied.
    pub open spec fn drained(self) -> GameModel {
        GameModel { sounds: Seq::empty(), ..self }
    }

    /// The game after the snake moved one cell: the head enters the next
    /// cell, every other segment takes the place of the one before it, and
    /// the last cell is left.
    pub open spec fn shifted(self) -> GameModel {
        GameModel { body: seq![self.next_head()] + self.body.drop_last(), ..self }
    }

    /// Whether the head has left the grid.
    pub open spec fn hits_wall(self) -> bool {
        !in_grid(self.head(), self.width, self.height)
    }

    /// How many segments behind the head lie on the head's cell.
    pub open spec fn bites(self) -> nat {
        self.body.skip(1).to_multiset().count(self.head())
    }

    /// Whether the head lies on the food.
    pub open spec fn on_food(self) -> bool {
        self.head() == self.food
    }

    /// Whether the head has run into a wall or into the snake.
    pub open spec fn crashed(self) -> bool {
        self.hits_wall() || self.bites() > 0
    }

    /// The sounds of running into something: one for the wall, then one for
    /// every segment that the head lies on.
    pub open spec fn crash_sounds(self) -> Seq<SoundEffect> {
        (if self.hits_wall() {
            seq![SoundEffect::Thunk]
        } else {
            Seq::empty()
        }) + selfbites(self.bites())
    }

    /// The sounds that resolving the collisions of `self` asks for, in the
    /// order wall, body, food.
    pub open spec fn collision_sounds(self, first_gulp: bool) -> Seq<SoundEffect> {
        self.crash_sounds() + (if self.on_food() {
            seq![gulp(first_gulp)]
        } else {
            Seq::empty()
        })
    }

    /// The game after the collisions of a snake that has just moved were
    /// resolved. A head off the grid or on a segment behind it ends the
    /// game. A head on the food, whether or not the game has just ended,
    /// makes the snake grow by a segment on that cell, raises the score by
    /// one and moves the food to `new_food`.
    pub open spec fn resolved(self, first_gulp: bool, new_food: (int, int)) -> GameModel {
        GameModel {
            body: if self.on_food() {
                self.body.push(self.food)
            } else {
                self.body
            },
            food: if self.on_food() {
                new_food
            } else {
                self.food
            },
            state: if self.crashed() {
                GameState::Over
            } else {
                self.state
            },
            score: if self.on_food() {
                self.score + 1
            } else {
                self.score
            },
            sounds: self.sounds + self.collision_sounds(first_gulp),
            ..self
        }
    }

    /// The game one tick later. Nothing happens unless the game is being
    /// played. `first_gulp` and `new_food` are what chance decides: they
    /// matter only if the snake eats at this tick.
    pub open spec fn tick(self, first_gulp: bool, new_food: (int, int)) -> GameModel {
        if self.state == GameState::Playing {
            self.shifted().resolved(first_gulp, new_food)
        } else {
            self
        }
    }

    /// Whether the grid has a cell at all, so that food can be placed on it.
    pub open spec fn has_cells(self) -> bool {
        self.width >= 1 && self.height >= 1
    }

    /// The game after one tick for each of `draws`, first to last. A draw
    /// holds what chance decides at its tick.
    pub open spec fn ticks(self, draws: Seq<(bool, (int, int))>) -> GameModel
        decreases draws.len(),
    {
        if draws.len() == 0 {
            self
        } else {
            self.ticks(draws.drop_last()).tick(draws.last().0, draws.last().1)
        }
    }

    /// Whether one tick stays within what the machine can hold: the snake
    /// has a head, the cell that the head enters has `i32` coordinates, and
    /// if the snake eats there the score has room to grow.
    pub open spec fn tick_fits(self) -> bool {
        self.state == GameState::Playing ==> {
            &&& self.body.len() >= 1
            &&& representable(self.next_head())
            &&& self.next_head() == self.food ==> self.score < u32::MAX
        }
    }
}

} // verus!
