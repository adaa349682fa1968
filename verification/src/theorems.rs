//! What holds of every game, proved over [`GameModel`].
//!
//! The operations of `GameContext` are specified as functions on the model,
//! so each statement here is a statement about what they do.

use crate::gamecontext::{GameContext, GameState, PlayerDirection, SoundEffect};
use crate::gamemodel::{
    gulp, in_grid, is_gulp, opening_body, opening_food, opposite, selfbites, GameModel,
};
use vstd::prelude::*;

verus! {

/// The head lies on a segment behind it exactly if `bites` counts one.
pub proof fn lemma_bites(game: GameModel)
    requires
        game.body.len() >= 1,
    ensures
        game.bites() > 0 <==> exists|i: int|
            1 <= i < game.body.len() && #[trigger] game.body[i] == game.head(),
{
    broadcast use vstd::seq_lib::group_to_multiset_ensures;

    let behind = game.body.skip(1);
    if game.bites() > 0 {
        assert(behind.contains(game.head()));
        let k = choose|k: int| 0 <= k < behind.len() && behind[k] == game.head();
        assert(game.body[k + 1] == game.head());
    }
    if exists|i: int| 1 <= i < game.body.len() && #[trigger] game.body[i] == game.head() {
        let i = choose|i: int| 1 <= i < game.body.len() && #[trigger] game.body[i] == game.head();
        assert(behind[i - 1] == game.head());
        assert(behind.contains(game.head()));
    }
}

/// A request for the heading opposite to the current one leaves the heading
/// as it is; a request for any other heading sets it. Nothing else changes
/// either way.
pub proof fn lemma_steering(game: GameModel, direction: PlayerDirection)
    ensures
        game.steered(opposite(game.direction)) == game,
        direction != opposite(game.direction) ==> game.steered(direction) == (GameModel {
            direction,
            ..game
        }),
{
}

/// Ticks change nothing while the game is paused or over, however many
/// there are and whatever chance decides at each.
pub proof fn lemma_idle_ticks(game: GameModel, draws: Seq<(bool, (int, int))>)
    requires
        game.state != GameState::Playing,
    ensures
        game.ticks(draws) == game,
    decreases draws.len(),
{
    if draws.len() > 0 {
        lemma_idle_ticks(game, draws.drop_last());
    }
}

/// A snake that moves into a free cell of the grid, one that holds neither
/// food nor any segment that stays where it is, moves and nothing else
/// happens: the head enters that cell, the rest follows, the length, the
/// phase, the score, the food and the sound queue are as before. The last
/// segment does not stay, so its cell counts as free.
pub proof fn lemma_free_move(game: GameModel, first_gulp: bool, new_food: (int, int))
    requires
        game.state == GameState::Playing,
        game.body.len() >= 1,
        in_grid(game.next_head(), game.width, game.height),
        game.next_head() != game.food,
        forall|i: int| 0 <= i < game.body.len() - 1 ==> game.body[i] != game.next_head(),
    ensures
        game.tick(first_gulp, new_food) == game.shifted(),
        game.tick(first_gulp, new_food).head() == game.next_head(),
        game.tick(first_gulp, new_food).body.len() == game.body.len(),
        game.tick(first_gulp, new_food).state == GameState::Playing,
{
    let moved = game.shifted();
    lemma_bites(moved);
    assert(moved.bites() == 0) by {
        if moved.bites() > 0 {
            let i = choose|i: int|
                1 <= i < moved.body.len() && #[trigger] moved.body[i] == moved.head();
            assert(moved.body[i] == game.body[i - 1]);
        }
    }
    assert(selfbites(0) =~= Seq::<SoundEffect>::empty());
    assert(moved.resolved(first_gulp, new_food) =~= moved);
}

/// A snake whose head enters the cell of the food eats: the score and the
/// length grow by one each, the new segment lies on the cell that the food
/// lay on, the food moves to the cell that chance picked, and exactly one
/// sound of eating joins the queue, after the sounds of any collision at the
/// same tick.
pub proof fn lemma_eating(game: GameModel, first_gulp: bool, new_food: (int, int))
    requires
        game.state == GameState::Playing,
        game.body.len() >= 1,
        game.next_head() == game.food,
    ensures
        ({
            let after = game.tick(first_gulp, new_food);
            let queued = game.sounds.len() as int;
            &&& after.score == game.score + 1
            &&& after.body.len() == game.body.len() + 1
            &&& after.body == game.shifted().body.push(game.food)
            &&& after.food == new_food
            &&& in_grid(new_food, game.width, game.height) ==> in_grid(
                after.food,
                after.width,
                after.height,
            )
            &&& after.sounds.len() > queued
            &&& after.sounds.subrange(0, queued) == game.sounds
            &&& after.sounds.last() == gulp(first_gulp)
            &&& forall|k: int| queued <= k < after.sounds.len() - 1 ==> !is_gulp(after.sounds[k])
        }),
{
    let after = game.tick(first_gulp, new_food);
    assert(after.sounds.subrange(0, game.sounds.len() as int) =~= game.sounds);
}

/// A snake whose head leaves the grid hits the wall: the game is over and
/// the first sound to join the queue is that of the wall. Every later tick
/// changes nothing.
pub proof fn lemma_wall(
    game: GameModel,
    first_gulp: bool,
    new_food: (int, int),
    draws: Seq<(bool, (int, int))>,
)
    requires
        game.state == GameState::Playing,
        game.body.len() >= 1,
        !in_grid(game.next_head(), game.width, game.height),
    ensures
        ({
            let after = game.tick(first_gulp, new_food);
            let queued = game.sounds.len() as int;
            &&& after.state == GameState::Over
            &&& after.sounds.len() > queued
            &&& after.sounds.subrange(0, queued) == game.sounds
            &&& after.sounds[queued] == SoundEffect::Thunk
            &&& after.ticks(draws) == after
        }),
{
    let after = game.tick(first_gulp, new_food);
    assert(after.sounds.subrange(0, game.sounds.len() as int) =~= game.sounds);
    lemma_idle_ticks(after, draws);
}

/// In a game that satisfies the invariant, hitting the wall does nothing
/// more than move the snake, end the game and ask for the sound of the wall:
/// the snake neither bites itself nor eats at that tick.
pub proof fn lemma_wall_only(game: GameModel, first_gulp: bool, new_food: (int, int))
    requires
        game.inv(),
        game.state == GameState::Playing,
        !in_grid(game.next_head(), game.width, game.height),
    ensures
        game.tick(first_gulp, new_food) == (GameModel {
            state: GameState::Over,
            sounds: game.sounds.push(SoundEffect::Thunk),
            ..game.shifted()
        }),
{
    let moved = game.shifted();
    lemma_bites(moved);
    assert(moved.bites() == 0) by {
        if moved.bites() > 0 {
            let i = choose|i: int|
                1 <= i < moved.body.len() && #[trigger] moved.body[i] == moved.head();
            assert(moved.body[i] == game.body[i - 1]);
        }
    }
    assert(selfbites(0) =~= Seq::<SoundEffect>::empty());
    assert(game.tick(first_gulp, new_food) =~= (GameModel {
        state: GameState::Over,
        sounds: game.sounds.push(SoundEffect::Thunk),
        ..game.shifted()
    }));
}

/// A snake whose head enters a cell on which one of its segments stays
/// bites itself: the game is over and a sound of biting joins the queue. The
/// last segment does not stay: a head that enters the cell that the tail is
/// leaving bites nothing.
pub proof fn lemma_self_bite(game: GameModel, first_gulp: bool, new_food: (int, int), segment: int)
    requires
        game.state == GameState::Playing,
        0 <= segment < game.body.len() - 1,
        game.body[segment] == game.next_head(),
    ensures
        ({
            let after = game.tick(first_gulp, new_food);
            let queued = game.sounds.len() as int;
            &&& after.state == GameState::Over
            &&& after.sounds.subrange(0, queued) == game.sounds
            &&& exists|k: int|
                queued <= k < after.sounds.len() && after.sounds[k] == SoundEffect::Selfbite
            &&& in_grid(game.next_head(), game.width, game.height) ==> after.sounds[queued]
                == SoundEffect::Selfbite
        }),
{
    let moved = game.shifted();
    let after = game.tick(first_gulp, new_food);
    let queued = game.sounds.len() as int;
    lemma_bites(moved);
    assert(moved.body[segment + 1] == moved.head());
    assert(after.sounds.subrange(0, queued) =~= game.sounds);
    let k = queued + if moved.hits_wall() {
        1int
    } else {
        0int
    };
    assert(after.sounds[k] == selfbites(moved.bites())[0]);
}

/// A game that is over stays over under every tick and every intent but
/// the one to start over, and pausing twice changes nothing.
pub proof fn lemma_phases(
    game: GameModel,
    direction: PlayerDirection,
    draws: Seq<(bool, (int, int))>,
)
    ensures
        game.pause_toggled().pause_toggled() == game,
        game.state == GameState::Over ==> {
            &&& game.ticks(draws) == game
            &&& game.pause_toggled() == game
            &&& game.steered(direction).state == GameState::Over
            &&& game.fps_toggled().state == GameState::Over
            &&& game.music_toggled().state == GameState::Over
            &&& game.quit_requested().state == GameState::Over
            &&& game.drained().state == GameState::Over
        },
        game.restarted().state == GameState::Paused,
{
    if game.state == GameState::Over {
        lemma_idle_ticks(game, draws);
    }
}

/// Starting over gives, in every phase, the snake, the heading, the food,
/// the score and the phase of a fresh game on the same grid, and an empty
/// sound queue. The display flags, the music flag and the quit flag are
/// kept.
pub proof fn lemma_restart(game: GameModel)
    ensures
        game.restarted() == (GameModel {
            fps: game.fps,
            show_fps: game.show_fps,
            music: game.music,
            quit: game.quit,
            ..GameModel::opening(game.width, game.height)
        }),
        game.restarted().body == opening_body(),
        game.restarted().direction == PlayerDirection::Right,
        game.restarted().food == opening_food(),
        game.restarted().score == 0,
        game.restarted().state == GameState::Paused,
        game.restarted().sounds.len() == 0,
        game.restarted().restarted() == game.restarted(),
{
}

/// A fresh game on a grid of four columns and four rows or more satisfies
/// the invariant.
pub proof fn lemma_opening_inv(width: int, height: int)
    requires
        width >= 4,
        height >= 4,
    ensures
        GameModel::opening(width, height).inv(),
{
}

/// No intent breaks the invariant.
pub proof fn lemma_intents_keep_inv(game: GameModel, direction: PlayerDirection)
    requires
        game.inv(),
    ensures
        game.steered(direction).inv(),
        game.pause_toggled().inv(),
        game.restarted().inv(),
        game.fps_toggled().inv(),
        game.music_toggled().inv(),
        game.quit_requested().inv(),
        game.drained().inv(),
{
}

/// No tick breaks the invariant, as long as new food is put on the grid.
pub proof fn lemma_tick_keeps_inv(game: GameModel, first_gulp: bool, new_food: (int, int))
    requires
        game.inv(),
        in_grid(new_food, game.width, game.height),
    ensures
        game.tick(first_gulp, new_food).inv(),
{
    if game.state == GameState::Playing {
        let moved = game.shifted();
        let after = game.tick(first_gulp, new_food);
        assert forall|i: int| 1 <= i < after.body.len() implies in_grid(
            #[trigger] after.body[i],
            after.width,
            after.height,
        ) by {
            if i < moved.body.len() {
                assert(after.body[i] == game.body[i - 1]);
            }
        }
    }
}

/// A game that satisfies the invariant can take a tick, with chance or
/// without, unless the score has reached the largest number it can hold.
pub proof fn lemma_inv_fits(context: GameContext)
    requires
        context@.inv(),
        context.food_eaten < u32::MAX,
    ensures
        context@.tick_fits(),
        context@.has_cells(),
{
}

} // verus!
