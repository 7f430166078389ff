//! The score of a run and the table of high scores on the screen.
use vstd::prelude::*;
use crate::asset::{Image, Point, Sprite};
use crate::font::Font;
use crate::game::GameMode;
use crate::units::{clamp_i64, elapsed, elapsed_spec, saturate_i64};

verus! {

/// Milliseconds that a run may take.
pub const GAME_DURATION: u64 = 450_000;

/// Damage points at which a run is lost.
pub const DAMAGE_LIMIT: i64 = 300;

/// Greatest length of the name of a high score, in bytes.
pub const MAX_NAME_LENGTH: usize = 16;

/// `points + delta`, kept between zero and the largest value.
pub open spec fn floored_sum(points: i64, delta: i64) -> i64 {
    if points + delta < 0 {
        0
    } else {
        clamp_i64(points + delta)
    }
}

/// The character of a decimal digit.
pub open spec fn digit_char(digit: int) -> char {
    if digit == 0 {
        '0'
    } else if digit == 1 {
        '1'
    } else if digit == 2 {
        '2'
    } else if digit == 3 {
        '3'
    } else if digit == 4 {
        '4'
    } else if digit == 5 {
        '5'
    } else if digit == 6 {
        '6'
    } else if digit == 7 {
        '7'
    } else if digit == 8 {
        '8'
    } else {
        '9'
    }
}

/// The decimal digits of a number that is not negative, without leading zeros.
pub open spec fn decimal_of(number: nat) -> Seq<char>
    decreases number,
{
    if number < 10 {
        seq![digit_char(number as int)]
    } else {
        decimal_of(number / 10).push(digit_char(number as int % 10))
    }
}

/// A number in decimal notation, with a minus sign where it is negative.
pub open spec fn number_text(number: int) -> Seq<char> {
    if number < 0 {
        seq!['-'] + decimal_of((-number) as nat)
    } else {
        decimal_of(number as nat)
    }
}

/// A time in milliseconds as minutes, a colon and two digits of seconds.
pub open spec fn time_text(milliseconds: u64) -> Seq<char> {
    let seconds = (milliseconds as int / 1_000) % 60;
    decimal_of((milliseconds / 60_000) as nat) + seq![
        ':',
        digit_char(seconds / 10),
        digit_char(seconds % 10),
    ]
}

fn digit(value: u64) -> (r: char)
    requires
        value < 10,
    ensures
        r == digit_char(value as int),
{
    if value == 0 {
        '0'
    } else if value == 1 {
        '1'
    } else if value == 2 {
        '2'
    } else if value == 3 {
        '3'
    } else if value == 4 {
        '4'
    } else if value == 5 {
        '5'
    } else if value == 6 {
        '6'
    } else if value == 7 {
        '7'
    } else if value == 8 {
        '8'
    } else {
        '9'
    }
}

/// The first line of the menu: the keys that show the help screens.
pub open spec fn help_text() -> Seq<char> {
    seq!['F', '1', '/', 'F', '2', ' ', '-', ' ', 'H', 'i', 'l', 'f', 'e']
}

/// The second line of the menu: the key that shows the table of high scores.
pub open spec fn highscores_text() -> Seq<char> {
    seq!['F', '3', ' ', '-', ' ', 'H', 'i', 'g', 'h', 's', 'c', 'o', 'r', 'e', 's']
}

/// The third line of the menu: the key that starts a run.
pub open spec fn play_text() -> Seq<char> {
    seq!['F', '5', ' ', '-', ' ', 'S', 'p', 'i', 'e', 'l', 'e', 'n']
}

/// Appends the decimal digits of a number to a text.
fn push_decimal(text: &mut Vec<char>, number: u64)
    ensures
        final(text)@ == old(text)@ + decimal_of(number as nat),
    decreases number,
{
    if number >= 10 {
        push_decimal(text, number / 10);
    }
    text.push(digit(number % 10));
    proof {
        if number >= 10 {
            assert(final(text)@ =~= old(text)@ + decimal_of(number as nat / 10).push(
                digit_char(number as int % 10),
            ));
        } else {
            assert(final(text)@ =~= old(text)@ + seq![digit_char(number as int)]);
        }
    }
}

/// A number, of an `i64` or the negative of one, in decimal notation.
fn number_to_text_wide(number: i128) -> (text: Vec<char>)
    requires
        -0x8000_0000_0000_0000 <= number <= 0x8000_0000_0000_0000,
    ensures
        text@ == number_text(number as int),
{
    let mut text: Vec<char> = Vec::new();
    if number < 0 {
        text.push('-');
        push_decimal(&mut text, (-number) as u64);
    } else {
        push_decimal(&mut text, number as u64);
    }
    proof {
        if number >= 0 {
            assert(text@ =~= decimal_of(number as nat));
        }
    }
    text
}

/// A number in decimal notation.
pub fn number_to_text(number: i64) -> (text: Vec<char>)
    ensures
        text@ == number_text(number as int),
{
    number_to_text_wide(number as i128)
}

/// A time in milliseconds as minutes, a colon and two digits of seconds.
pub fn time_to_text(milliseconds: u64) -> (text: Vec<char>)
    ensures
        text@ == time_text(milliseconds),
{
    let mut text: Vec<char> = Vec::new();
    push_decimal(&mut text, milliseconds / 60_000);
    let seconds: u64 = (milliseconds / 1_000) % 60;
    text.push(':');
    text.push(digit(seconds / 10));
    text.push(digit(seconds % 10));
    proof {
        assert(text@ =~= time_text(milliseconds));
    }
    text
}

/// The three small images beside the numbers of the score.
#[derive(Clone, Copy)]
pub struct ScoreIcons<'a> {
    pub gift_image: &'a Image,
    pub damage_image: &'a Image,
    pub time_image: &'a Image,
}

/// Column of the small image of the gift points, in position units.
pub const GIFT_POSITION_X: i64 = 0;

/// Column of the small image of the damage points, in position units.
pub const DAMAGE_POSITION_X: i64 = 150_000_000;

/// Column of the small image of the remaining time, in position units.
pub const TIME_POSITION_X: i64 = 535_000_000;

/// Distance of a number from the left edge of its small image, in position units.
pub const MARGIN_X: i64 = 35_000_000;

/// The points, the remaining time and the outcome of a run.
///
/// Gift points and damage points never fall below zero, whatever is added.
#[derive(Clone, Copy, Debug)]
pub struct Score {
    pub game_mode: GameMode,
    pub gift_points: i64,
    pub damage_points: i64,
    pub remaining_duration: u64,
    pub won: bool,
    pub last_update_instant: u64,
    pub damage_limit: i64,
}

impl Score {
    /// Neither accumulator is negative.
    pub open spec fn wf(&self) -> bool {
        &&& self.gift_points >= 0
        &&& self.damage_points >= 0
    }

    /// The value after `add_gift_points`.
    pub open spec fn with_gift_points(self, gift_points: i64) -> Score {
        Score { gift_points: floored_sum(self.gift_points, gift_points), ..self }
    }

    /// The value after `add_damage_points`.
    pub open spec fn with_damage_points(self, damage_points: i64) -> Score {
        Score { damage_points: floored_sum(self.damage_points, damage_points), ..self }
    }

    /// The value after `do_logic`: the remaining time less the time since
    /// the last update, but not below zero.
    pub open spec fn tick(self, now: u64) -> Score {
        let passed = elapsed_spec(self.last_update_instant, now);
        Score {
            remaining_duration: if passed >= self.remaining_duration {
                0
            } else {
                (self.remaining_duration - passed) as u64
            },
            last_update_instant: if now >= self.last_update_instant {
                now
            } else {
                self.last_update_instant
            },
            ..self
        }
    }

    /// Whether the run is lost because the damage reached the limit.
    pub open spec fn lost_due_to_damage_spec(&self) -> bool {
        self.game_mode == GameMode::Running && self.damage_points >= self.damage_limit
    }

    /// Whether the run is lost because no time is left.
    pub open spec fn lost_due_to_time_spec(&self) -> bool {
        self.game_mode == GameMode::Running && self.remaining_duration == 0
    }

    /// A score in menu mode with nothing counted; the run is lost once the
    /// damage points reach `damage_limit`.
    pub fn new(damage_limit: i64) -> (r: Score)
        ensures
            r.wf(),
            r == (Score {
                game_mode: GameMode::Menu,
                gift_points: 0,
                damage_points: 0,
                remaining_duration: 0,
                won: false,
                last_update_instant: 0,
                damage_limit,
            }),
    {
        Score {
            game_mode: GameMode::Menu,
            gift_points: 0,
            damage_points: 0,
            remaining_duration: 0,
            won: false,
            last_update_instant: 0,
            damage_limit,
        }
    }

    /// Clears the points and the outcome and grants the full time, counted from `now`.
    pub fn reset(&mut self, now: u64)
        ensures
            final(self).wf(),
            *final(self) == (Score {
                gift_points: 0,
                damage_points: 0,
                remaining_duration: GAME_DURATION,
                won: false,
                last_update_instant: now,
                ..*old(self)
            }),
    {
        self.gift_points = 0;
        self.damage_points = 0;
        self.remaining_duration = GAME_DURATION;
        self.won = false;
        self.last_update_instant = now;
    }

    /// Starts a run whose clock begins at `game_start_instant`.
    pub fn start_game(&mut self, game_start_instant: u64)
        ensures
            final(self).wf(),
            *final(self) == (Score {
                game_mode: GameMode::Running,
                gift_points: 0,
                damage_points: 0,
                remaining_duration: GAME_DURATION,
                won: false,
                last_update_instant: game_start_instant,
                ..*old(self)
            }),
    {
        self.game_mode = GameMode::Running;
        self.reset(game_start_instant);
    }

    /// Returns to the menu; the outcome of the last run is forgotten.
    pub fn start_menu(&mut self)
        ensures
            *final(self) == (Score { game_mode: GameMode::Menu, won: false, ..*old(self) }),
    {
        self.game_mode = GameMode::Menu;
        self.won = false;
    }

    /// Adds gift points; a negative sum is raised to zero.
    pub fn add_gift_points(&mut self, gift_points: i64)
        ensures
            *final(self) == old(self).with_gift_points(gift_points),
            final(self).gift_points >= 0,
            old(self).wf() ==> final(self).wf(),
    {
        let sum: i128 = self.gift_points as i128 + gift_points as i128;
        self.gift_points = if sum < 0 { 0 } else { saturate_i64(sum) };
    }

    /// Adds damage points; a negative sum is raised to zero.
    pub fn add_damage_points(&mut self, damage_points: i64)
        ensures
            *final(self) == old(self).with_damage_points(damage_points),
            final(self).damage_points >= 0,
            old(self).wf() ==> final(self).wf(),
    {
        let sum: i128 = self.damage_points as i128 + damage_points as i128;
        self.damage_points = if sum < 0 { 0 } else { saturate_i64(sum) };
    }

    /// Lets the clock advance to `now`, in every mode; the remaining time
    /// stops at zero. A clock that begins later than `now` has not begun to
    /// lose time.
    pub fn do_logic(&mut self, now: u64)
        ensures
            *final(self) == old(self).tick(now),
            old(self).wf() ==> final(self).wf(),
    {
        let passed = elapsed(self.last_update_instant, now);
        if passed >= self.remaining_duration {
            self.remaining_duration = 0;
        } else {
            self.remaining_duration = self.remaining_duration - passed;
        }
        if now >= self.last_update_instant {
            self.last_update_instant = now;
        }
    }

    /// The gift points.
    pub fn gift_points(&self) -> (r: i64)
        ensures
            r == self.gift_points,
    {
        self.gift_points
    }

    /// The damage points.
    pub fn damage_points(&self) -> (r: i64)
        ensures
            r == self.damage_points,
    {
        self.damage_points
    }

    /// The milliseconds left.
    pub fn remaining_duration(&self) -> (r: u64)
        ensures
            r == self.remaining_duration,
    {
        self.remaining_duration
    }

    /// Gift points less damage points: what counts for the table of high scores.
    pub fn score_points(&self) -> (r: i64)
        ensures
            r == clamp_i64(self.gift_points - self.damage_points),
    {
        saturate_i64(self.gift_points as i128 - self.damage_points as i128)
    }

    /// Whether the finish was reached.
    pub fn won(&self) -> (r: bool)
        ensures
            r == self.won,
    {
        self.won
    }

    /// Records whether the finish was reached.
    pub fn set_won(&mut self, won: bool)
        ensures
            *final(self) == (Score { won, ..*old(self) }),
    {
        self.won = won;
    }

    /// Whether the run is lost because the damage reached the limit.
    pub fn lost_due_to_damage(&self) -> (r: bool)
        ensures
            r == self.lost_due_to_damage_spec(),
    {
        self.game_mode == GameMode::Running && self.damage_points >= self.damage_limit
    }

    /// Whether the run is lost because no time is left.
    pub fn lost_due_to_time(&self) -> (r: bool)
        ensures
            r == self.lost_due_to_time_spec(),
    {
        self.game_mode == GameMode::Running && self.remaining_duration == 0
    }

    /// What is drawn of one entry of the score: its small image at the top
    /// of the canvas, and its number beside it, with its left edge and its
    /// middle half of the height of the first small image down.
    pub open spec fn entry<'a>(
        font: &Font<'a>,
        icons: ScoreIcons<'a>,
        image: &'a Image,
        position_x: i64,
        text: Seq<char>,
    ) -> Seq<Sprite<'a>> {
        let point = Point {
            x: (position_x + MARGIN_X) as i64,
            y: crate::units::quotient(crate::units::pixels_spec(icons.gift_image.frame_height()) as int, 2) as i64,
        };
        seq![Sprite { image, position: Point { x: position_x, y: 0 }, frame: 0 }] + font.glyphs(
            text,
            true,
            font.start_of(point, text, Alignment::CenterLeft, true),
            text.len() as int,
        )
    }

    /// A line of the menu at the top of the canvas.
    pub open spec fn menu_line<'a>(
        font: &Font<'a>,
        point: Point,
        text: Seq<char>,
        alignment: Alignment,
    ) -> Seq<Sprite<'a>> {
        font.glyphs(text, false, font.start_of(point, text, alignment, false), text.len() as int)
    }

    /// What is drawn of the score on a canvas of the given size. In the
    /// menu, the keys of the menu at the left, in the middle and at the right
    /// of the top. In a run, the gift points, the damage points with a minus
    /// sign, and the remaining time, each beside its small image.
    pub open spec fn sprites<'a>(&self, font: &Font<'a>, icons: ScoreIcons<'a>, canvas_size: Point) -> Seq<
        Sprite<'a>,
    > {
        if self.game_mode == GameMode::Menu {
            Self::menu_line(font, Point { x: 0, y: 0 }, help_text(), Alignment::TopLeft)
                + Self::menu_line(
                font,
                Point { x: crate::units::quotient(canvas_size.x as int, 2) as i64, y: 0 },
                highscores_text(),
                Alignment::TopCenter,
            ) + Self::menu_line(
                font,
                Point { x: canvas_size.x, y: 0 },
                play_text(),
                Alignment::TopRight,
            )
        } else {
            Self::entry(
                font,
                icons,
                icons.gift_image,
                GIFT_POSITION_X,
                number_text(self.gift_points as int),
            ) + Self::entry(
                font,
                icons,
                icons.damage_image,
                DAMAGE_POSITION_X,
                number_text(-self.damage_points),
            ) + Self::entry(
                font,
                icons,
                icons.time_image,
                TIME_POSITION_X,
                time_text(self.remaining_duration),
            )
        }
    }

    fn draw_entry<'a>(
        font: &Font<'a>,
        icons: ScoreIcons<'a>,
        image: &'a Image,
        position_x: i64,
        text: &Vec<char>,
    ) -> (sprites: Vec<Sprite<'a>>)
        requires
            font.can_draw(),
            icons.gift_image.wf(),
            0 <= position_x <= TIME_POSITION_X,
        ensures
            sprites@ == Self::entry(font, icons, image, position_x, text@),
    {
        let point = Point::new(
            position_x + MARGIN_X,
            crate::units::pixels(icons.gift_image.height() as i64) / 2,
        );
        let mut sprites: Vec<Sprite<'a>> = Vec::new();
        sprites.push(Sprite { image, position: Point::new(position_x, 0), frame: 0 });
        let mut glyphs = font.draw_monospace(point, text, Alignment::CenterLeft);
        let ghost glyphs_view = glyphs@;
        sprites.append(&mut glyphs);
        proof {
            assert(sprites@ =~= seq![
                Sprite { image, position: Point { x: position_x, y: 0 }, frame: 0 },
            ] + glyphs_view);
        }
        sprites
    }

    /// What is drawn of the score, from the back to the front.
    pub fn draw<'a>(&self, font: &Font<'a>, icons: ScoreIcons<'a>, canvas_size: Point) -> (sprites:
        Vec<Sprite<'a>>)
        requires
            font.can_draw(),
            icons.gift_image.wf(),
        ensures
            sprites@ == self.sprites(font, icons, canvas_size),
    {
        if self.game_mode == GameMode::Menu {
            let help: Vec<char> = vec![
                'F', '1', '/', 'F', '2', ' ', '-', ' ', 'H', 'i', 'l', 'f', 'e',
            ];
            let highscores: Vec<char> = vec![
                'F', '3', ' ', '-', ' ', 'H', 'i', 'g', 'h', 's', 'c', 'o', 'r', 'e', 's',
            ];
            let play: Vec<char> = vec!['F', '5', ' ', '-', ' ', 'S', 'p', 'i', 'e', 'l', 'e', 'n'];
            proof {
                assert(help@ =~= help_text());
                assert(highscores@ =~= highscores_text());
                assert(play@ =~= play_text());
            }
            let mut sprites = font.draw(Point::zero(), &help, Alignment::TopLeft);
            let mut middle = font.draw(
                Point::new(canvas_size.x / 2, 0),
                &highscores,
                Alignment::TopCenter,
            );
            let mut right = font.draw(Point::new(canvas_size.x, 0), &play, Alignment::TopRight);
            sprites.append(&mut middle);
            sprites.append(&mut right);
            sprites
        } else {
            let mut sprites = Self::draw_entry(
                font,
                icons,
                icons.gift_image,
                GIFT_POSITION_X,
                &number_to_text(self.gift_points),
            );
            let mut damage_sprites = Self::draw_entry(
                font,
                icons,
                icons.damage_image,
                DAMAGE_POSITION_X,
                &number_to_text_wide(-(self.damage_points as i128)),
            );
            let mut time_sprites = Self::draw_entry(
                font,
                icons,
                icons.time_image,
                TIME_POSITION_X,
                &time_to_text(self.remaining_duration),
            );
            sprites.append(&mut damage_sprites);
            sprites.append(&mut time_sprites);
            sprites
        }
    }

    /// The remaining time as whole minutes and the seconds beyond them.
    pub fn remaining_minutes_and_seconds(&self) -> (r: (u64, u64))
        ensures
            r.0 == self.remaining_duration / 60_000,
            r.1 == (self.remaining_duration / 1_000) % 60,
    {
        (self.remaining_duration / 60_000, (self.remaining_duration / 1_000) % 60)
    }
}

/// The corner, edge or middle of a text that is put at the given point.
#[derive(Clone, Copy, PartialEq, Eq, Debug, Structural)]
pub enum Alignment {
    TopLeft,
    TopCenter,
    TopRight,
    CenterLeft,
    Center,
    CenterRight,
    BottomLeft,
    BottomCenter,
    BottomRight,
}

impl Alignment {
    /// The number of the alignment, row by row from the top left.
    pub open spec fn index_spec(self) -> int {
        match self {
            Alignment::TopLeft => 0,
            Alignment::TopCenter => 1,
            Alignment::TopRight => 2,
            Alignment::CenterLeft => 3,
            Alignment::Center => 4,
            Alignment::CenterRight => 5,
            Alignment::BottomLeft => 6,
            Alignment::BottomCenter => 7,
            Alignment::BottomRight => 8,
        }
    }

    /// The number of the alignment, row by row from the top left.
    pub fn index(self) -> (r: i32)
        ensures
            r == self.index_spec(),
    {
        match self {
            Alignment::TopLeft => 0,
            Alignment::TopCenter => 1,
            Alignment::TopRight => 2,
            Alignment::CenterLeft => 3,
            Alignment::Center => 4,
            Alignment::CenterRight => 5,
            Alignment::BottomLeft => 6,
            Alignment::BottomCenter => 7,
            Alignment::BottomRight => 8,
        }
    }
}

/// The table of high scores on the screen.
#[derive(Clone, Copy, PartialEq, Eq, Debug, Structural)]
pub struct HighscoreTable {
    pub visible: bool,
    pub new_highscore_index: usize,
    pub max_name_length: usize,
}

impl HighscoreTable {
    /// A hidden table whose names have at most `max_name_length` bytes.
    pub fn new(max_name_length: usize) -> (r: HighscoreTable)
        ensures
            r == (HighscoreTable { visible: false, new_highscore_index: 0, max_name_length }),
    {
        HighscoreTable { visible: false, new_highscore_index: 0, max_name_length }
    }

    /// Shows the table.
    pub fn show(&mut self)
        ensures
            *final(self) == (HighscoreTable { visible: true, ..*old(self) }),
    {
        self.visible = true;
    }

    /// Takes the table off the screen.
    pub fn dismiss(&mut self)
        ensures
            *final(self) == (HighscoreTable { visible: false, ..*old(self) }),
    {
        self.visible = false;
    }

    /// Shows the table with the line at `index` waiting for its name.
    pub fn new_highscore(&mut self, index: usize)
        ensures
            *final(self) == (HighscoreTable {
                visible: true,
                new_highscore_index: index,
                ..*old(self)
            }),
    {
        self.visible = true;
        self.new_highscore_index = index;
    }

    /// The line that waits for its name.
    pub fn new_highscore_index(&self) -> (r: usize)
        ensures
            r == self.new_highscore_index,
    {
        self.new_highscore_index
    }

    /// The greatest length of a name, in bytes.
    pub fn max_name_length(&self) -> (r: usize)
        ensures
            r == self.max_name_length,
    {
        self.max_name_length
    }

    /// Whether the table is shown.
    pub fn is_visible(&self) -> (r: bool)
        ensures
            r == self.visible,
    {
        self.visible
    }
}

/// The score after additions, one after the other: each gives the points
/// to add, to the gift points where its flag is set, else to the damage points.
pub open spec fn after_additions(score: Score, additions: Seq<(bool, i64)>) -> Score
    decreases additions.len(),
{
    if additions.len() == 0 {
        score
    } else {
        let before = after_additions(score, additions.drop_last());
        if additions.last().0 {
            before.with_gift_points(additions.last().1)
        } else {
            before.with_damage_points(additions.last().1)
        }
    }
}

/// Score floors: whatever is added, of whatever sign and in whatever order,
/// neither the gift points nor the damage points are negative afterwards.
pub proof fn lemma_points_never_negative(score: Score, additions: Seq<(bool, i64)>)
    requires
        score.wf(),
    ensures
        after_additions(score, additions).gift_points >= 0,
        after_additions(score, additions).damage_points >= 0,
        after_additions(score, additions).wf(),
    decreases additions.len(),
{
    if additions.len() > 0 {
        lemma_points_never_negative(score, additions.drop_last());
    }
}

} // verus!
