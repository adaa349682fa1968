//! The simulation core of a grid-based snake game.
//!
//! The crate holds the rules of the game and nothing else: where the snake
//! is, which way it moves, where the food lies, what counts as a collision,
//! how the score grows, and which sound effects a tick gives rise to. A
//! driver feeds it intents and ticks, a renderer reads the state, and an
//! audio player drains the queue of sound effects.
//!
//! Every operation is specified over [`gamemodel::GameModel`], a
//! mathematical model of the game, and verified against it. What holds of
//! every game is proved in [`theorems`].
//!
//! Beside the simulation stand the rules that the collaborators share with
//! it: which key means what ([`gameinput`]), what a frame shows
//! ([`gamerenderer`]), and which clip plays on which channel
//! ([`gamesound`]).

mod chance;
pub mod gamecontext;
pub mod gameinput;
pub mod gamemodel;
pub mod gamerenderer;
pub mod gamesettings;
pub mod gamesound;
pub mod point;
pub mod theorems;
