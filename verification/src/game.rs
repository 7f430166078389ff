//! The screens of the game and the rules that lead from one to the next.
use vstd::prelude::*;
use vstd::string::StringExecFns;
use crate::asset::{AssetLibrary, Point, Sound, SoundName};
use crate::gift::Gift;
use crate::level::{Landscape, Level};
use crate::npc::has_npc_assets;
use crate::options::{Highscore, Options};
use crate::sleigh::Sleigh;
use crate::ui::{HighscoreTable, Score};
use crate::units::{clamp_i64, clamp_u64, instant_after};

verus! {

/// The screen that the game shows.
#[derive(Clone, Copy, PartialEq, Eq, Debug, Structural)]
pub enum GameMode {
    Menu,
    HelpSplash1,
    HelpSplash2,
    HighscoreTable,
    Running,
    WonSplash,
    LostDueToDamageSplash,
    LostDueToTimeSplash,
    NewHighscore,
}

/// How a dropped gift starts to move: on `Easy` with the scroll speed of the
/// level alone, on `Hard` with the velocity of the sleigh added.
#[derive(Clone, Copy, PartialEq, Eq, Debug, Structural)]
pub enum GameDifficulty {
    Easy,
    Hard,
}

/// The keys that the game knows.
#[derive(Clone, Copy, PartialEq, Eq, Debug, Structural)]
pub enum Key {
    Backspace,
    C,
    Escape,
    F1,
    F2,
    F3,
    F5,
    F6,
    KpEnter,
    Return,
    Space,
    Other,
}

/// What the game asks of the program that runs it.
#[derive(Clone, Copy, PartialEq, Eq, Debug, Structural)]
pub enum Request {
    /// Switch between the window and the whole screen.
    ToggleFullscreen,
    /// Begin to take text for the name of a high score.
    StartTextInput,
    /// Store the settings and stop taking text.
    SaveOptionsAndStopTextInput,
}

/// The game: its screen, and the score, the landscape, the level and the
/// sleigh of the run.
pub struct Game<'a> {
    pub options: Options,
    pub asset_library: &'a AssetLibrary,
    pub quit_flag: bool,
    pub mode: GameMode,
    pub difficulty: GameDifficulty,
    pub score: Score,
    pub highscore_table: HighscoreTable,
    pub landscape: Landscape<'a>,
    pub level: Level<'a>,
    pub sleigh: Sleigh<'a>,
    pub counting_down: bool,
    pub splash_end_instant: u64,
    pub countdown_duration: u64,
    pub splash_duration: u64,
}

/// The points of a run as they enter the table of high scores.
pub open spec fn highscore_points(score_points: i64) -> i32 {
    if score_points < i32::MIN {
        i32::MIN
    } else if score_points > i32::MAX {
        i32::MAX
    } else {
        score_points as i32
    }
}

/// Whether `mode` is one of the screens of the menu: the menu itself, a
/// help screen or the table of high scores.
pub open spec fn is_menu_screen(mode: GameMode) -> bool {
    mode == GameMode::Menu || mode == GameMode::HelpSplash1 || mode == GameMode::HelpSplash2
        || mode == GameMode::HighscoreTable
}

/// Whether `after` is the table `before` with the name of the line at
/// `index` replaced by `name`, and nothing else changed.
pub open spec fn renamed(before: Seq<Highscore>, after: Seq<Highscore>, index: int, name: Seq<char>) -> bool {
    &&& after.len() == before.len()
    &&& 0 <= index < before.len()
    &&& forall|i: int| 0 <= i < before.len() && i != index ==> after[i] == before[i]
    &&& after[index].points == before[index].points
    &&& after[index].name@ == name
}

/// The greatest rectangle with the proportions of a picture that fits into
/// a window, in the middle of the window, as left, top, width and height: as
/// high as a window that is too wide, as wide as one that is too high.
pub open spec fn letterbox_spec(window: (u32, u32), picture: (u32, u32)) -> (int, int, int, int) {
    if window.0 * picture.1 >= picture.0 * window.1 {
        let width = (picture.0 * window.1) / (picture.1 as int);
        ((window.0 - width) / 2, 0, width, window.1 as int)
    } else {
        let height = (picture.1 * window.0) / (picture.0 as int);
        (0, (window.1 - height) / 2, window.0 as int, height)
    }
}

/// The greatest rectangle with the proportions of a picture that fits into
/// a window, in the middle of the window, as left, top, width and height.
pub fn letterbox(window: (u32, u32), picture: (u32, u32)) -> (r: (u32, u32, u32, u32))
    requires
        picture.0 > 0,
        picture.1 > 0,
    ensures
        (r.0 as int, r.1 as int, r.2 as int, r.3 as int) == letterbox_spec(window, picture),
{
    let window_width = window.0 as u64;
    let window_height = window.1 as u64;
    let picture_width = picture.0 as u64;
    let picture_height = picture.1 as u64;
    assert(window_width * picture_height <= 0xffff_ffff * 0xffff_ffff) by (nonlinear_arith)
        requires
            0 <= window_width <= 0xffff_ffff,
            0 <= picture_height <= 0xffff_ffff,
    ;
    assert(picture_width * window_height <= 0xffff_ffff * 0xffff_ffff) by (nonlinear_arith)
        requires
            0 <= picture_width <= 0xffff_ffff,
            0 <= window_height <= 0xffff_ffff,
    ;
    if window_width * picture_height >= picture_width * window_height {
        let width = picture_width * window_height / picture_height;
        assert(width <= window_width) by (nonlinear_arith)
            requires
                width == (picture_width * window_height) / (picture_height as int),
                window_width * picture_height >= picture_width * window_height,
                picture_height > 0,
        ;
        (((window_width - width) / 2) as u32, 0, width as u32, window.1)
    } else {
        let height = picture_height * window_width / picture_width;
        assert(height <= window_height) by (nonlinear_arith)
            requires
                height == (picture_height * window_width) / (picture_width as int),
                window_width * picture_height < picture_width * window_height,
                picture_width > 0,
        ;
        (0, ((window_height - height) / 2) as u32, window.0, height as u32)
    }
}

/// Number of bytes of a text in UTF-8.
pub open spec fn bytes_of(text: Seq<char>) -> usize {
    vstd::utf8::encode_utf8(text).len() as usize
}

/// Removes the last character of a string, if it has one.
///
/// Calls `String::pop`, which the standard library documents to remove the
/// last character and to leave an empty string as it is.
#[verifier::external_body]
fn pop_last(text: &mut String)
    ensures
        final(text)@ == if old(text)@.len() > 0 {
            old(text)@.drop_last()
        } else {
            old(text)@
        },
{
    text.pop();
}

impl<'a> Game<'a> {
    /// The parts are well formed and fit together: the library holds what
    /// characters and gifts need, the canvas of the level is wider than the
    /// sleigh, and a line that waits for its name is a line of the table.
    pub open spec fn wf(&self) -> bool {
        &&& self.asset_library.wf()
        &&& has_npc_assets(self.asset_library)
        &&& Gift::has_assets(self.asset_library)
        &&& self.score.wf()
        &&& self.landscape.wf()
        &&& self.level.wf()
        &&& self.sleigh.wf()
        &&& self.level.canvas_size.x > self.sleigh.size.x
        &&& self.mode == GameMode::NewHighscore ==> self.highscore_table.new_highscore_index
            < self.options.highscores@.len()
    }

    /// A game in the menu, with a countdown of three seconds before a run
    /// and splash screens of five seconds after it.
    pub fn new(
        asset_library: &'a AssetLibrary,
        options: Options,
        score: Score,
        highscore_table: HighscoreTable,
        landscape: Landscape<'a>,
        level: Level<'a>,
        sleigh: Sleigh<'a>,
        now: u64,
    ) -> (r: Game<'a>)
        requires
            asset_library.wf(),
            has_npc_assets(asset_library),
            Gift::has_assets(asset_library),
            score.wf(),
            landscape.wf(),
            level.wf(),
            sleigh.wf(),
            level.canvas_size.x > sleigh.size.x,
        ensures
            r.wf(),
            r == (Game {
                options,
                asset_library,
                quit_flag: false,
                mode: GameMode::Menu,
                difficulty: GameDifficulty::Easy,
                score,
                highscore_table,
                landscape,
                level,
                sleigh,
                counting_down: false,
                splash_end_instant: now,
                countdown_duration: 3000,
                splash_duration: 5000,
            }),
    {
        Game {
            options,
            asset_library,
            quit_flag: false,
            mode: GameMode::Menu,
            difficulty: GameDifficulty::Easy,
            score,
            highscore_table,
            landscape,
            level,
            sleigh,
            counting_down: false,
            splash_end_instant: now,
            countdown_duration: 3000,
            splash_duration: 5000,
        }
    }

    /// Whether `after` is the game at the start of a run at `now`: the run
    /// begins when the countdown is over, with a fresh score, and the
    /// landscape, the level and the sleigh at their start.
    pub open spec fn starts_run_to(self, after: Game<'a>, difficulty: GameDifficulty, now: u64) -> bool {
        let game_start_instant = clamp_u64(now + self.countdown_duration);
        &&& self.level.starts_game_to(after.level, game_start_instant)
        &&& self.sleigh.starts_game_to(after.sleigh, game_start_instant)
        &&& after == (Game {
            mode: GameMode::Running,
            difficulty,
            counting_down: true,
            score: Score {
                game_mode: GameMode::Running,
                gift_points: 0,
                damage_points: 0,
                remaining_duration: crate::ui::GAME_DURATION,
                won: false,
                last_update_instant: game_start_instant,
                ..self.score
            },
            highscore_table: HighscoreTable { visible: false, ..self.highscore_table },
            landscape: Landscape {
                offset_x: 0,
                scrolling_resume_instant: game_start_instant,
                ..self.landscape
            },
            level: after.level,
            sleigh: after.sleigh,
            ..self
        })
    }

    /// Whether `after` is the game back at a screen of the menu at `now`:
    /// the score, the landscape, the level and the sleigh are in menu mode.
    pub open spec fn returns_to_menu_to(self, after: Game<'a>, mode: GameMode, now: u64) -> bool {
        &&& self.level.starts_menu_to(after.level)
        &&& self.sleigh.starts_menu_to(after.sleigh, now)
        &&& after == (Game {
            mode,
            score: Score { game_mode: GameMode::Menu, won: false, ..self.score },
            landscape: Landscape { scrolling_resume_instant: 0, ..self.landscape },
            level: after.level,
            sleigh: after.sleigh,
            ..self
        })
    }

    /// The game with another screen and the table of high scores shown or not.
    pub open spec fn with_screen(self, mode: GameMode, table_visible: bool) -> Game<'a> {
        Game {
            mode,
            highscore_table: HighscoreTable { visible: table_visible, ..self.highscore_table },
            ..self
        }
    }

    /// Whether the values after are those of the game after a key was
    /// pressed at `now`. The first of these that applies decides:
    ///
    /// - Control and C end the program.
    /// - Alt and Return switch between the window and the whole screen.
    /// - F1 and F2, on a screen of the menu, show the two help screens.
    /// - F3 shows the table of high scores from the menu, and leads back.
    /// - F5 and F6, in the menu or at the table, start an easy or a hard run.
    /// - Escape ends the program in the menu, leads back to the menu from
    ///   the help screens and the table, and ends a run.
    /// - Space leads back to the menu from a help screen and drops a gift
    ///   in a run.
    /// - Backspace deletes the last character of the name of a new high score.
    /// - Return ends the input of that name and has the settings stored.
    pub open spec fn handles_key_to(
        self,
        after: Game<'a>,
        key: Key,
        ctrl: bool,
        alt: bool,
        request: Option<Request>,
        now: u64,
    ) -> bool {
        if ctrl && key == Key::C {
            after == (Game { quit_flag: true, ..self }) && request.is_none()
        } else if alt && key == Key::Return {
            after == self && request == Some(Request::ToggleFullscreen)
        } else if key == Key::F1 && is_menu_screen(self.mode) {
            after == self.with_screen(GameMode::HelpSplash1, false) && request.is_none()
        } else if key == Key::F2 && is_menu_screen(self.mode) {
            after == self.with_screen(GameMode::HelpSplash2, false) && request.is_none()
        } else if key == Key::F3 && self.mode == GameMode::Menu {
            after == self.with_screen(GameMode::HighscoreTable, true) && request.is_none()
        } else if key == Key::F3 && self.mode == GameMode::HighscoreTable {
            after == self.with_screen(GameMode::Menu, false) && request.is_none()
        } else if (key == Key::F5 || key == Key::F6) && (self.mode == GameMode::Menu || self.mode
            == GameMode::HighscoreTable) {
            self.starts_run_to(
                after,
                if key == Key::F5 {
                    GameDifficulty::Easy
                } else {
                    GameDifficulty::Hard
                },
                now,
            ) && request.is_none()
        } else if key == Key::Escape {
            request.is_none() && match self.mode {
                GameMode::Menu => after == (Game { quit_flag: true, ..self }),
                GameMode::HelpSplash1 | GameMode::HelpSplash2 | GameMode::HighscoreTable => after
                    == self.with_screen(GameMode::Menu, false),
                GameMode::Running => self.returns_to_menu_to(after, GameMode::Menu, now),
                _ => after == self,
            }
        } else if key == Key::Space && (self.mode == GameMode::HelpSplash1 || self.mode
            == GameMode::HelpSplash2) {
            after == (Game { mode: GameMode::Menu, ..self }) && request.is_none()
        } else if key == Key::Space && self.mode == GameMode::Running {
            &&& request.is_none()
            &&& self.sleigh.drops_gift_to(
                after.sleigh,
                self.asset_library,
                &self.level,
                self.difficulty,
                now,
            )
            &&& after == (Game { sleigh: after.sleigh, ..self })
        } else if key == Key::Backspace && self.mode == GameMode::NewHighscore {
            let index = self.highscore_table.new_highscore_index as int;
            let name = self.options.highscores@[index].name@;
            &&& request.is_none()
            &&& after == (Game {
                options: Options { highscores: after.options.highscores, ..self.options },
                ..self
            })
            &&& renamed(
                self.options.highscores@,
                after.options.highscores@,
                index,
                if name.len() > 0 {
                    name.drop_last()
                } else {
                    name
                },
            )
        } else if (key == Key::Return || key == Key::KpEnter) && self.mode
            == GameMode::NewHighscore {
            after == self.with_screen(GameMode::HighscoreTable, true) && request == Some(
                Request::SaveOptionsAndStopTextInput,
            )
        } else {
            after == self && request.is_none()
        }
    }

    /// Reacts to a key that was pressed at `now`. Returns what the program
    /// has to do.
    pub fn handle_key(&mut self, key: Key, ctrl: bool, alt: bool, now: u64) -> (request: Option<
        Request,
    >)
        requires
            old(self).wf(),
        ensures
            final(self).wf(),
            old(self).handles_key_to(*final(self), key, ctrl, alt, request, now),
    {
        if ctrl && key == Key::C {
            self.quit_flag = true;
            None
        } else if alt && key == Key::Return {
            Some(Request::ToggleFullscreen)
        } else if key == Key::F1 && self.is_on_menu_screen() {
            self.show_screen(GameMode::HelpSplash1, false);
            None
        } else if key == Key::F2 && self.is_on_menu_screen() {
            self.show_screen(GameMode::HelpSplash2, false);
            None
        } else if key == Key::F3 && self.mode == GameMode::Menu {
            self.show_screen(GameMode::HighscoreTable, true);
            None
        } else if key == Key::F3 && self.mode == GameMode::HighscoreTable {
            self.show_screen(GameMode::Menu, false);
            None
        } else if (key == Key::F5 || key == Key::F6) && (self.mode == GameMode::Menu || self.mode
            == GameMode::HighscoreTable) {
            self.start_run(if key == Key::F5 { GameDifficulty::Easy } else { GameDifficulty::Hard }, now);
            None
        } else if key == Key::Escape {
            self.escape(now);
            None
        } else if key == Key::Space && (self.mode == GameMode::HelpSplash1 || self.mode
            == GameMode::HelpSplash2) {
            self.mode = GameMode::Menu;
            None
        } else if key == Key::Space && self.mode == GameMode::Running {
            self.sleigh.drop_gift(self.asset_library, &self.level, self.difficulty, now);
            None
        } else if key == Key::Backspace && self.mode == GameMode::NewHighscore {
            self.delete_last_character();
            None
        } else if (key == Key::Return || key == Key::KpEnter) && self.mode
            == GameMode::NewHighscore {
            self.show_screen(GameMode::HighscoreTable, true);
            Some(Request::SaveOptionsAndStopTextInput)
        } else {
            None
        }
    }

    /// Whether the game shows a screen of the menu.
    fn is_on_menu_screen(&self) -> (r: bool)
        ensures
            r == is_menu_screen(self.mode),
    {
        self.mode == GameMode::Menu || self.mode == GameMode::HelpSplash1 || self.mode
            == GameMode::HelpSplash2 || self.mode == GameMode::HighscoreTable
    }

    /// Shows another screen that does not wait for a name, with the table
    /// of high scores shown or not.
    fn show_screen(&mut self, mode: GameMode, table_visible: bool)
        requires
            old(self).wf(),
            mode != GameMode::NewHighscore,
        ensures
            final(self).wf(),
            *final(self) == old(self).with_screen(mode, table_visible),
    {
        self.mode = mode;
        if table_visible {
            self.highscore_table.show();
        } else {
            self.highscore_table.dismiss();
        }
    }

    /// Starts a run at `now`.
    fn start_run(&mut self, difficulty: GameDifficulty, now: u64)
        requires
            old(self).wf(),
        ensures
            final(self).wf(),
            old(self).starts_run_to(*final(self), difficulty, now),
    {
        self.mode = GameMode::Running;
        self.difficulty = difficulty;
        let game_start_instant = instant_after(now, self.countdown_duration);
        self.counting_down = true;
        self.score.start_game(game_start_instant);
        self.highscore_table.dismiss();
        self.landscape.start_game(game_start_instant);
        self.level.start_game(game_start_instant);
        self.sleigh.start_game(game_start_instant);
    }

    /// Puts the score, the landscape, the level and the sleigh into menu
    /// mode at `now` and shows the screen `mode`.
    fn return_to_menu(&mut self, mode: GameMode, now: u64)
        requires
            old(self).wf(),
            mode == GameMode::NewHighscore ==> old(self).highscore_table.new_highscore_index < old(self).options.highscores@.len(),
        ensures
            final(self).wf(),
            old(self).returns_to_menu_to(*final(self), mode, now),
    {
        self.mode = mode;
        self.score.start_menu();
        self.landscape.start_menu();
        self.level.start_menu();
        self.sleigh.start_menu(now);
    }

    /// Reacts to the Escape key at `now`.
    fn escape(&mut self, now: u64)
        requires
            old(self).wf(),
        ensures
            final(self).wf(),
            match old(self).mode {
                GameMode::Menu => *final(self) == (Game { quit_flag: true, ..*old(self) }),
                GameMode::HelpSplash1 | GameMode::HelpSplash2 | GameMode::HighscoreTable => *final(self) == old(self).with_screen(GameMode::Menu, false),
                GameMode::Running => old(self).returns_to_menu_to(
                    *final(self),
                    GameMode::Menu,
                    now,
                ),
                _ => *final(self) == *old(self),
            },
    {
        match self.mode {
            GameMode::Menu => {
                self.quit_flag = true;
            },
            GameMode::HelpSplash1 | GameMode::HelpSplash2 | GameMode::HighscoreTable => {
                self.show_screen(GameMode::Menu, false);
            },
            GameMode::Running => {
                self.return_to_menu(GameMode::Menu, now);
            },
            _ => {},
        }
    }

    /// Deletes the last character of the name of the line that waits for
    /// its name.
    fn delete_last_character(&mut self)
        requires
            old(self).wf(),
            old(self).mode == GameMode::NewHighscore,
        ensures
            final(self).wf(),
            *final(self) == (Game {
                options: Options { highscores: final(self).options.highscores, ..old(self).options },
                ..*old(self)
            }),
            ({
                let index = old(self).highscore_table.new_highscore_index as int;
                let name = old(self).options.highscores@[index].name@;
                renamed(
                    old(self).options.highscores@,
                    final(self).options.highscores@,
                    index,
                    if name.len() > 0 {
                        name.drop_last()
                    } else {
                        name
                    },
                )
            }),
    {
        let index = self.highscore_table.new_highscore_index();
        let mut highscore_name = self.options.highscores[index].name();
        let points = self.options.highscores[index].points();
        pop_last(&mut highscore_name);
        self.options.highscores.set(index, Highscore::new(highscore_name, points));
    }

    /// Whether the values after are those of the game after text was
    /// entered: while a line waits for its name, a text of one byte joins the
    /// name, unless the name would grow beyond its greatest length.
    pub open spec fn handles_text_to(self, after: Game<'a>, text: &str) -> bool {
        let index = self.highscore_table.new_highscore_index as int;
        if self.mode == GameMode::NewHighscore
            && bytes_of(self.options.highscores@[index].name@)
            < self.highscore_table.max_name_length && bytes_of(text@) == 1 {
            &&& after == (Game {
                options: Options { highscores: after.options.highscores, ..self.options },
                ..self
            })
            &&& renamed(
                self.options.highscores@,
                after.options.highscores@,
                index,
                self.options.highscores@[index].name@ + text@,
            )
        } else {
            after == self
        }
    }

    /// Reacts to text that was entered.
    pub fn handle_text_input(&mut self, text: &str)
        requires
            old(self).wf(),
        ensures
            final(self).wf(),
            old(self).handles_text_to(*final(self), text),
    {
        if self.mode == GameMode::NewHighscore {
            let index = self.highscore_table.new_highscore_index();
            let mut highscore_name = self.options.highscores[index].name();
            let points = self.options.highscores[index].points();
            let length = highscore_name.as_str().len();
            if length < self.highscore_table.max_name_length() && text.len() == 1 {
                highscore_name.append(text);
                self.options.highscores.set(index, Highscore::new(highscore_name, points));
            }
        }
    }

    /// Whether the values are those of the steps of the simulation at
    /// `now`: the clock of the score goes on, the landscape scrolls, the
    /// sleigh ticks, and the level ticks. So the states of the sleigh
    /// whose time is over have ended, and the sleigh has moved, before
    /// anything is tested against it.
    pub open spec fn simulation_steps(
        self,
        after: Game<'a>,
        sounds: Seq<Sound>,
        menu_position: Point,
        now: u64,
        sleigh_score: Score,
        moved_sleigh: Sleigh<'a>,
        sleigh_sounds: Seq<Sound>,
        level_sounds: Seq<Sound>,
    ) -> bool {
        &&& self.sleigh.does_logic_to(
            moved_sleigh,
            self.score.tick(now),
            sleigh_score,
            &self.level,
            sleigh_sounds,
            menu_position,
            now,
        )
        &&& self.level.does_logic_to(
            after.level,
            sleigh_score,
            after.score,
            self.landscape.scrolled(self.level.scroll_speed_x, now),
            after.landscape,
            moved_sleigh,
            after.sleigh,
            level_sounds,
            self.asset_library,
            now,
        )
        &&& after == (Game {
            score: after.score,
            landscape: after.landscape,
            level: after.level,
            sleigh: after.sleigh,
            ..self
        })
        &&& sounds == sleigh_sounds + level_sounds
    }

    /// Whether the values after are those of the simulation at `now`.
    pub open spec fn simulates_to(
        self,
        after: Game<'a>,
        sounds: Seq<Sound>,
        menu_position: Point,
        now: u64,
    ) -> bool {
        exists|
            sleigh_score: Score,
            moved_sleigh: Sleigh<'a>,
            sleigh_sounds: Seq<Sound>,
            level_sounds: Seq<Sound>,
        | #[trigger]
            self.simulation_steps(
                after,
                sounds,
                menu_position,
                now,
                sleigh_score,
                moved_sleigh,
                sleigh_sounds,
                level_sounds,
            )
    }

    /// The game at the splash screen `mode`, which ends after the splash duration.
    pub open spec fn with_splash(self, mode: GameMode, now: u64) -> Game<'a> {
        Game { mode, splash_end_instant: clamp_u64(now + self.splash_duration), ..self }
    }

    /// Whether the values after are those of the game after the outcome of
    /// the run was looked at: a run that is won leads to the splash screen of
    /// the winner; a game that is won outside a run starts the menu again; a
    /// run that is lost, by damage before time, leads to its splash screen.
    pub open spec fn concludes_to(self, after: Game<'a>, sounds: Seq<Sound>, now: u64) -> bool {
        if self.score.won {
            if self.mode == GameMode::Running {
                after == self.with_splash(GameMode::WonSplash, now) && sounds == seq![
                    Sound::at(SoundName::Won, 1000, 500),
                ]
            } else {
                self.returns_to_menu_to(after, self.mode, now) && sounds == Seq::<Sound>::empty()
            }
        } else if self.score.lost_due_to_damage_spec() {
            after == self.with_splash(GameMode::LostDueToDamageSplash, now) && sounds == seq![
                Sound::at(SoundName::Lost, 1000, 500),
            ]
        } else if self.score.lost_due_to_time_spec() {
            after == self.with_splash(GameMode::LostDueToTimeSplash, now) && sounds == seq![
                Sound::at(SoundName::Lost, 1000, 500),
            ]
        } else {
            after == self && sounds == Seq::<Sound>::empty()
        }
    }

    /// Whether the values after are those of the game after the splash
    /// screen of the winner has ended at `now`: a run whose points are not
    /// below those of a line of the table enters the table there and waits
    /// for its name; else the table is the next screen. Either way the score,
    /// the landscape, the level and the sleigh return to menu mode.
    pub open spec fn leaves_won_splash_to(self, after: Game<'a>, request: Option<Request>, now: u64) -> bool {
        let points = highscore_points(clamp_i64(self.score.gift_points - self.score.damage_points));
        let line = if after.mode == GameMode::NewHighscore {
            Some(after.highscore_table.new_highscore_index)
        } else {
            None
        };
        &&& after.mode == GameMode::NewHighscore || after.mode == GameMode::HighscoreTable
        &&& after.mode == GameMode::NewHighscore ==> {
            &&& self.options.inserts_highscore_to(after.options, points, line)
            &&& after.highscore_table.new_highscore_index < after.options.highscores@.len()
            &&& after.highscore_table == (HighscoreTable {
                visible: true,
                new_highscore_index: after.highscore_table.new_highscore_index,
                ..self.highscore_table
            })
            &&& request == Some(Request::StartTextInput)
        }
        &&& after.mode == GameMode::HighscoreTable ==> {
            &&& exists|dropped: Option<usize>| #[trigger]
                self.options.inserts_highscore_to(after.options, points, dropped) && (
                dropped matches Some(index) ==> index >= after.options.highscores@.len())
            &&& after.highscore_table == self.highscore_table
            &&& request.is_none()
        }
        &&& (Game {
            options: after.options,
            highscore_table: after.highscore_table,
            ..self
        }).returns_to_menu_to(after, after.mode, now)
    }

    /// Whether the values after are those of a tick of the game at `now`.
    ///
    /// A splash screen stays until its time is over; then the splash screen
    /// of the winner leads to the table of high scores, and those of the
    /// loser to the menu. A help screen stays. On every other screen the
    /// simulation goes on, and then the outcome of the run is looked at.
    pub open spec fn does_logic_to(
        self,
        after: Game<'a>,
        sounds: Seq<Sound>,
        request: Option<Request>,
        menu_position: Point,
        now: u64,
    ) -> bool {
        match self.mode {
            GameMode::WonSplash => if now >= self.splash_end_instant {
                self.leaves_won_splash_to(after, request, now) && sounds == Seq::<Sound>::empty()
            } else {
                after == self && sounds == Seq::<Sound>::empty() && request.is_none()
            },
            GameMode::LostDueToDamageSplash | GameMode::LostDueToTimeSplash => if now
                >= self.splash_end_instant {
                self.returns_to_menu_to(after, GameMode::Menu, now) && sounds == Seq::<
                    Sound,
                >::empty() && request.is_none()
            } else {
                after == self && sounds == Seq::<Sound>::empty() && request.is_none()
            },
            GameMode::HelpSplash1 | GameMode::HelpSplash2 => after == self && sounds == Seq::<
                Sound,
            >::empty() && request.is_none(),
            _ => request.is_none() && exists|
                simulated: Game<'a>,
                simulation_sounds: Seq<Sound>,
                outcome_sounds: Seq<Sound>,
            |
                #![trigger
                    self.simulates_to(simulated, simulation_sounds, menu_position, now),
                    simulated.concludes_to(after, outcome_sounds, now),
                ]
                self.simulates_to(simulated, simulation_sounds, menu_position, now)
                    && simulated.concludes_to(after, outcome_sounds, now) && sounds
                    == simulation_sounds + outcome_sounds,
        }
    }

    /// Lets the game live up to `now`; in the menu the sleigh floats at
    /// `menu_position`. Returns the sounds to play and what the program has
    /// to do.
    pub fn do_logic(&mut self, menu_position: Point, now: u64) -> (r: (Vec<Sound>, Option<Request>))
        requires
            old(self).wf(),
        ensures
            final(self).wf(),
            old(self).does_logic_to(*final(self), r.0@, r.1, menu_position, now),
    {
        match self.mode {
            GameMode::WonSplash => {
                if now >= self.splash_end_instant {
                    let request = self.leave_won_splash(now);
                    (Vec::new(), request)
                } else {
                    (Vec::new(), None)
                }
            },
            GameMode::LostDueToDamageSplash | GameMode::LostDueToTimeSplash => {
                if now >= self.splash_end_instant {
                    self.return_to_menu(GameMode::Menu, now);
                }
                (Vec::new(), None)
            },
            GameMode::HelpSplash1 | GameMode::HelpSplash2 => (Vec::new(), None),
            _ => {
                let mut sounds = self.simulate(menu_position, now);
                let ghost simulated = *self;
                let ghost simulation_sounds = sounds@;
                let mut outcome_sounds = self.conclude(now);
                let ghost outcome_sounds_view = outcome_sounds@;
                sounds.append(&mut outcome_sounds);
                assert(old(self).simulates_to(simulated, simulation_sounds, menu_position, now));
                assert(simulated.concludes_to(*self, outcome_sounds_view, now));
                (sounds, None)
            },
        }
    }

    /// Lets the simulation go on to `now`.
    fn simulate(&mut self, menu_position: Point, now: u64) -> (sounds: Vec<Sound>)
        requires
            old(self).wf(),
        ensures
            final(self).wf(),
            final(self).mode == old(self).mode,
            old(self).simulates_to(*final(self), sounds@, menu_position, now),
    {
        self.score.do_logic(now);
        self.landscape.do_logic(&self.level, now);
        let mut sounds = self.sleigh.do_logic(&mut self.score, &self.level, menu_position, now);
        let ghost sleigh_score = self.score;
        let ghost moved_sleigh = self.sleigh;
        let ghost sleigh_sounds = sounds@;
        let mut level_sounds = self.level.do_logic(
            self.asset_library,
            &mut self.score,
            &mut self.landscape,
            &mut self.sleigh,
            now,
        );
        let ghost level_sounds_view = level_sounds@;
        sounds.append(&mut level_sounds);
        assert(old(self).simulation_steps(
            *self,
            sounds@,
            menu_position,
            now,
            sleigh_score,
            moved_sleigh,
            sleigh_sounds,
            level_sounds_view,
        ));
        sounds
    }

    /// Looks at the outcome of the run at `now`.
    fn conclude(&mut self, now: u64) -> (sounds: Vec<Sound>)
        requires
            old(self).wf(),
            old(self).mode != GameMode::WonSplash,
            old(self).mode != GameMode::LostDueToDamageSplash,
            old(self).mode != GameMode::LostDueToTimeSplash,
        ensures
            final(self).wf(),
            old(self).concludes_to(*final(self), sounds@, now),
    {
        let mut sounds: Vec<Sound> = Vec::new();
        if self.score.won() {
            if self.mode == GameMode::Running {
                sounds.push(Sound::play(SoundName::Won));
                self.mode = GameMode::WonSplash;
                self.splash_end_instant = instant_after(now, self.splash_duration);
            } else {
                let mode = self.mode;
                self.return_to_menu(mode, now);
            }
        } else if self.score.lost_due_to_damage() {
            sounds.push(Sound::play(SoundName::Lost));
            self.mode = GameMode::LostDueToDamageSplash;
            self.splash_end_instant = instant_after(now, self.splash_duration);
        } else if self.score.lost_due_to_time() {
            sounds.push(Sound::play(SoundName::Lost));
            self.mode = GameMode::LostDueToTimeSplash;
            self.splash_end_instant = instant_after(now, self.splash_duration);
        }
        proof {
            if sounds@.len() == 1 {
                assert(sounds@ =~= seq![sounds@[0]]);
            }
        }
        sounds
    }

    /// Leaves the splash screen of the winner at `now`.
    fn leave_won_splash(&mut self, now: u64) -> (request: Option<Request>)
        requires
            old(self).wf(),
            old(self).mode == GameMode::WonSplash,
        ensures
            final(self).wf(),
            old(self).leaves_won_splash_to(*final(self), request, now),
    {
        let score_points = self.score.score_points();
        let points: i32 = if score_points < i32::MIN as i64 {
            i32::MIN
        } else if score_points > i32::MAX as i64 {
            i32::MAX
        } else {
            score_points as i32
        };
        let line = self.options.insert_highscore(points);
        let mut request: Option<Request> = None;
        let mut mode = GameMode::HighscoreTable;
        match line {
            Some(index) => {
                if index < self.options.highscores.len() {
                    mode = GameMode::NewHighscore;
                    self.highscore_table.new_highscore(index);
                    request = Some(Request::StartTextInput);
                }
            },
            None => {},
        }
        let ghost entered = *self;
        self.return_to_menu(mode, now);
        proof {
            assert(points == highscore_points(
                clamp_i64(old(self).score.gift_points - old(self).score.damage_points),
            ));
            assert(old(self).options.inserts_highscore_to(self.options, points, line));
            assert(entered == (Game {
                options: self.options,
                highscore_table: self.highscore_table,
                ..*old(self)
            }));
        }
        request
    }

    /// The name of the image behind everything else on a screen.
    pub open spec fn background_of(mode: GameMode) -> Seq<char> {
        match mode {
            GameMode::HelpSplash1 => "helpSplash1"@,
            GameMode::HelpSplash2 => "helpSplash2"@,
            GameMode::WonSplash => "wonSplash"@,
            GameMode::LostDueToDamageSplash => "lostDueToDamageSplash"@,
            GameMode::LostDueToTimeSplash => "lostDueToTimeSplash"@,
            _ => "background"@,
        }
    }

    /// The name of the image behind everything else on the screen.
    pub fn background_image_name(&self) -> (r: &'static str)
        ensures
            r@ == Game::background_of(self.mode),
    {
        match self.mode {
            GameMode::HelpSplash1 => "helpSplash1",
            GameMode::HelpSplash2 => "helpSplash2",
            GameMode::WonSplash => "wonSplash",
            GameMode::LostDueToDamageSplash => "lostDueToDamageSplash",
            GameMode::LostDueToTimeSplash => "lostDueToTimeSplash",
            _ => "background",
        }
    }

    /// Whether the landscape, the level, the sleigh, the score and the
    /// table of high scores are drawn: on every screen but the help and
    /// splash screens.
    pub fn shows_world(&self) -> (r: bool)
        ensures
            r == (self.mode == GameMode::Menu || self.mode == GameMode::HighscoreTable
                || self.mode == GameMode::Running || self.mode == GameMode::NewHighscore),
    {
        self.mode == GameMode::Menu || self.mode == GameMode::HighscoreTable || self.mode
            == GameMode::Running || self.mode == GameMode::NewHighscore
    }

    /// Reacts to the wish to end the program.
    pub fn handle_quit(&mut self)
        ensures
            *final(self) == (Game { quit_flag: true, ..*old(self) }),
    {
        self.quit_flag = true;
    }

    /// Whether the program should end.
    pub fn quit_flag(&self) -> (r: bool)
        ensures
            r == self.quit_flag,
    {
        self.quit_flag
    }

    /// The screen that the game shows.
    pub fn mode(&self) -> (r: GameMode)
        ensures
            r == self.mode,
    {
        self.mode
    }
}

} // verus!
