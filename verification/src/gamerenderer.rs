//! What a frame shows.
//!
//! [`Scene::draw`] turns a game into the list of things to put on the
//! screen, in the order in which they are to be put there. Putting them
//! there is the renderer's part.

use crate::gamecontext::{GameContext, GameState};
use crate::gamemodel::GameModel;
use crate::gamesettings::DOT_SIZE_IN_PXS;
use crate::point::Point;
use vstd::prelude::*;

verus! {

/// A colour, as red, green and blue.
#[derive(Copy, Clone, Debug, PartialEq, Eq, Structural)]
pub struct Color(pub u8, pub u8, pub u8);

pub open spec fn black() -> Color {
    Color(0, 0, 0)
}

pub open spec fn white() -> Color {
    Color(255, 255, 255)
}

pub open spec fn gray() -> Color {
    Color(128, 128, 128)
}

pub open spec fn red() -> Color {
    Color(255, 0, 0)
}

pub open spec fn green() -> Color {
    Color(0, 255, 0)
}

/// The colour behind a paused game.
pub open spec fn dusk() -> Color {
    Color(30, 30, 30)
}

/// One thing to put on the screen.
#[derive(Debug, PartialEq, Eq)]
pub enum DrawCommand {
    /// Fill the whole screen with a colour.
    Clear { color: Color },
    /// Write a line of text of the given size, its top left corner at the
    /// pixel (`x`, `y`).
    Text { text: String, color: Color, size: u16, x: i32, y: i32 },
    /// Fill a square with sides of `side` pixels, its top left corner at the
    /// pixel (`left`, `top`).
    Dot { color: Color, left: i64, top: i64, side: u32 },
}

/// A [`DrawCommand`] as a mathematical value.
pub enum DrawModel {
    Clear { color: Color },
    Text { text: Seq<char>, color: Color, size: int, x: int, y: int },
    Dot { color: Color, left: int, top: int, side: int },
}

impl View for DrawCommand {
    type V = DrawModel;

    open spec fn view(&self) -> DrawModel {
        match *self {
            DrawCommand::Clear { color } => DrawModel::Clear { color },
            DrawCommand::Text { text, color, size, x, y } => DrawModel::Text {
                text: text@,
                color,
                size: size as int,
                x: x as int,
                y: y as int,
            },
            DrawCommand::Dot { color, left, top, side } => DrawModel::Dot {
                color,
                left: left as int,
                top: top as int,
                side: side as int,
            },
        }
    }
}

/// The character of a decimal digit.
pub open spec fn digit_char(digit: int) -> char
    recommends
        0 <= digit <= 9,
{
    seq!['0', '1', '2', '3', '4', '5', '6', '7', '8', '9'][digit]
}

/// A natural number in decimal, without leading zeros.
pub open spec fn digits(n: nat) -> Seq<char>
    decreases n,
{
    if n < 10 {
        seq![digit_char(n as int)]
    } else {
        digits(n / 10).push(digit_char(n as int % 10))
    }
}

/// An integer in decimal, with a minus sign before a negative one.
pub open spec fn decimal(n: int) -> Seq<char> {
    if n < 0 {
        seq!['-'] + digits((-n) as nat)
    } else {
        digits(n as nat)
    }
}

/// Formats an integer with `format!`, that is by its `Display`. The claim is
/// what std documents of the `Display` of an integer: decimal digits without
/// leading zeros, after a minus sign if the number is negative.
#[verifier::external_body]
fn decimal_string(n: i64) -> (text: String)
    ensures
        text@ == decimal(n as int),
{
    format!("{}", n)
}

/// The dot that covers a cell of the grid.
pub open spec fn dot(color: Color, cell: (int, int)) -> DrawModel {
    DrawModel::Dot {
        color,
        left: cell.0 * DOT_SIZE_IN_PXS,
        top: cell.1 * DOT_SIZE_IN_PXS,
        side: DOT_SIZE_IN_PXS as int,
    }
}

/// A line of text.
pub open spec fn line(text: Seq<char>, color: Color, size: int, x: int, y: int) -> DrawModel {
    DrawModel::Text { text, color, size, x, y }
}

/// The colour behind the game: black while it is played, dusk while it is
/// paused, red once it is over.
pub open spec fn backdrop(state: GameState) -> Color {
    match state {
        GameState::Playing => black(),
        GameState::Paused => dusk(),
        GameState::Over => red(),
    }
}

/// The lines of text of a frame: the title and the controls while the game
/// is paused, the title and the outcome once it is over, and the frame rate
/// while it is played, if that is to be shown.
pub open spec fn captions(game: GameModel) -> Seq<DrawModel> {
    match game.state {
        GameState::Paused => seq![
            line("Snake Game"@, white(), 128, 120, 100),
            line("PAUSED"@, red(), 64, 260, 240),
            line("WASD keys,DPad: MOVE SNAKE   N key,Button A: NEW GAME"@, gray(), 28, 40, 480),
            line("M key,X Button: TOGGLE MUSIC   P key,Button B: SHOW FPS"@, gray(), 28, 40, 520),
            line(
                "ESC key,Back Button: QUIT      Space,Start Button: UNPAUSE"@,
                gray(),
                28,
                40,
                560,
            ),
        ],
        GameState::Over => seq![
            line("Snake Game"@, white(), 128, 120, 100),
            line("Game Over"@, black(), 64, 260, 220),
            line(
                "You ate "@ + decimal(game.score as int)
                    + " fruit before you ate the wall or yourself!"@,
                black(),
                32,
                40,
                560,
            ),
        ],
        GameState::Playing => if game.show_fps {
            seq![line("fps:"@ + decimal(game.fps), green(), 16, 0, 0)]
        } else {
            Seq::empty()
        },
    }
}

/// A frame: the backdrop, the lines of text, a green dot on every cell of
/// the snake from head to tail, and a red dot on the food.
pub open spec fn frame(game: GameModel) -> Seq<DrawModel> {
    seq![DrawModel::Clear { color: backdrop(game.state) }] + captions(game) + game.body.map_values(
        |cell: (int, int)| dot(green(), cell),
    ) + seq![dot(red(), game.food)]
}

/// The things to put on the screen, first to last.
pub struct Scene {
    pub commands: Vec<DrawCommand>,
}

impl View for Scene {
    type V = Seq<DrawModel>;

    open spec fn view(&self) -> Seq<DrawModel> {
        self.commands@.map_values(|command: DrawCommand| command@)
    }
}

impl Scene {
    /// The frame that shows the game.
    pub fn draw(context: &GameContext) -> (scene: Scene)
        ensures
            scene@ == frame(context@),
    {
        let mut scene = Scene { commands: Vec::new() };
        assert(scene@ =~= Seq::<DrawModel>::empty());
        scene.draw_background(context);
        scene.draw_player(context);
        scene.draw_food(context);
        scene
    }

    fn draw_dot(&mut self, color: Color, point: &Point)
        ensures
            final(self)@ == old(self)@.push(dot(color, point@)),
    {
        let Point(x, y) = *point;
        self.commands.push(
            DrawCommand::Dot {
                color,
                left: x as i64 * DOT_SIZE_IN_PXS as i64,
                top: y as i64 * DOT_SIZE_IN_PXS as i64,
                side: DOT_SIZE_IN_PXS,
            },
        );
        assert(self@ =~= old(self)@.push(dot(color, point@)));
    }

    fn draw_background(&mut self, context: &GameContext)
        ensures
            final(self)@ == old(self)@ + seq![
                DrawModel::Clear { color: backdrop(context@.state) },
            ] + captions(context@),
    {
        let color = match context.state {
            GameState::Playing => Color(0, 0, 0),
            GameState::Paused => Color(30, 30, 30),
            GameState::Over => Color(255, 0, 0),
        };
        self.commands.push(DrawCommand::Clear { color });
        assert(self@ =~= old(self)@.push(DrawModel::Clear { color }));
        let ghost cleared = self@;

        if context.state == GameState::Paused {
            self.draw_text("Snake Game".to_owned(), Color(255, 255, 255), 128, 120, 100);
            self.draw_text("PAUSED".to_owned(), Color(255, 0, 0), 64, 260, 240);
            self.draw_text(
                "WASD keys,DPad: MOVE SNAKE   N key,Button A: NEW GAME".to_owned(),
                Color(128, 128, 128),
                28,
                40,
                480,
            );
            self.draw_text(
                "M key,X Button: TOGGLE MUSIC   P key,Button B: SHOW FPS".to_owned(),
                Color(128, 128, 128),
                28,
                40,
                520,
            );
            self.draw_text(
                "ESC key,Back Button: QUIT      Space,Start Button: UNPAUSE".to_owned(),
                Color(128, 128, 128),
                28,
                40,
                560,
            );
        }
        if context.state == GameState::Over {
            self.draw_text("Snake Game".to_owned(), Color(255, 255, 255), 128, 120, 100);
            self.draw_text("Game Over".to_owned(), Color(0, 0, 0), 64, 260, 220);
            let mut status_text = "You ate ".to_owned();
            status_text.append(decimal_string(context.food_eaten as i64).as_str());
            status_text.append(" fruit before you ate the wall or yourself!");
            self.draw_text(status_text, Color(0, 0, 0), 32, 40, 560);
        }
        if context.state == GameState::Playing && context.show_fps {
            let mut fps_text = "fps:".to_owned();
            fps_text.append(decimal_string(context.fps as i64).as_str());
            self.draw_text(fps_text, Color(0, 255, 0), 16, 0, 0);
        }
        assert(self@ =~= cleared + captions(context@));
    }

    fn draw_player(&mut self, context: &GameContext)
        ensures
            final(self)@ == old(self)@ + context@.body.map_values(
                |cell: (int, int)| dot(green(), cell),
            ),
    {
        let ghost dots = context@.body.map_values(|cell: (int, int)| dot(green(), cell));
        let mut i: usize = 0;
        while i < context.player_position.len()
            invariant
                i <= context.player_position.len(),
                dots == context@.body.map_values(|cell: (int, int)| dot(green(), cell)),
                self@ == old(self)@ + dots.subrange(0, i as int),
            decreases context.player_position.len() - i,
        {
            self.draw_dot(Color(0, 255, 0), &context.player_position[i]);
            assert(dots.subrange(0, i + 1) =~= dots.subrange(0, i as int).push(dots[i as int]));
            i += 1;
        }
        assert(dots.subrange(0, i as int) =~= dots);
    }

    fn draw_food(&mut self, context: &GameContext)
        ensures
            final(self)@ == old(self)@.push(dot(red(), context@.food)),
    {
        self.draw_dot(Color(255, 0, 0), &context.food);
    }

    fn draw_text(&mut self, text: String, color: Color, size: u16, x_pos: i32, y_pos: i32)
        ensures
            final(self)@ == old(self)@.push(
                line(text@, color, size as int, x_pos as int, y_pos as int),
            ),
    {
        self.commands.push(DrawCommand::Text { text, color, size, x: x_pos, y: y_pos });
        assert(self@ =~= old(self)@.push(
            line(text@, color, size as int, x_pos as int, y_pos as int),
        ));
    }
}

} // verus!
