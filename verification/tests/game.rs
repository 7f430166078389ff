use santa_racer::asset::{number_of_frames_of, AssetLibrary, Image, Point};
use santa_racer::level::Level;
use santa_racer::asset::SoundName;
use santa_racer::game::{letterbox, Game, GameDifficulty, GameMode, Key, Request};
use santa_racer::level::Landscape;
use santa_racer::options::{Highscore, Options};
use santa_racer::sleigh::Sleigh;
use santa_racer::ui::{HighscoreTable, Score};

#[allow(dead_code)]
fn px(pixels: i64) -> i64 {
    pixels * 1_000_000
}

#[allow(dead_code)]
fn opaque(name: &str, frame_width: u32, frame_height: u32, frames: (i32, i32)) -> Image {
    let width = frame_width * frames.0 as u32;
    let height = frame_height * frames.1 as u32;
    Image::new(name.to_string(), width, height, frames, vec![true; (width * height) as usize])
}

#[allow(dead_code)]
fn library() -> AssetLibrary {
    let mut library = AssetLibrary::new();
    let images: [(&str, u32, u32); 30] = [
        ("sleigh", 8, 8),
        ("reindeer", 8, 8),
        ("electrocutedSleigh", 12, 12),
        ("electrocutedReindeer", 12, 12),
        ("shield", 16, 16),
        ("star", 2, 2),
        ("smallStar", 1, 1),
        ("drunkStar", 2, 2),
        ("smallDrunkStar", 1, 1),
        ("gift1", 4, 4),
        ("gift2", 4, 4),
        ("gift3", 4, 4),
        ("bigStar", 6, 6),
        ("points10", 5, 3),
        ("points15", 5, 3),
        ("points20", 5, 3),
        ("angel", 8, 8),
        ("cashBalloon", 8, 8),
        ("giftBalloon", 8, 8),
        ("heartBalloon", 8, 8),
        ("shieldBalloon", 8, 8),
        ("wineBalloon", 8, 8),
        ("cloud", 8, 8),
        ("finish", 8, 8),
        ("goblin", 8, 8),
        ("goblinSnowball", 2, 2),
        ("snowman", 8, 8),
        ("level", 64, 64),
        ("font", 4, 6),
        ("landscape", 640, 480),
    ];
    for (name, width, height) in images.iter() {
        let frames = number_of_frames_of(name);
        library.add_image(name.to_string(), opaque(name, *width, *height, frames));
    }
    library.add_data("chimneys".to_string(), vec![10, 5, 20, 3, 0, 0, 64, 7]);
    let mut widths: Vec<i64> = Vec::new();
    for i in 0..46 {
        widths.push(3 + (i % 3));
    }
    library.add_data("fontCharacterWidths".to_string(), widths);
    library
}

#[allow(dead_code)]
fn canvas() -> Point {
    Point::new(px(640), px(480))
}

#[allow(dead_code)]
fn empty_level<'a>(library: &'a AssetLibrary, columns: usize) -> Level<'a> {
    Level::new(canvas(), library.get_image("level"), vec![-1; 5 * columns], vec![-1; 5 * columns])
}


fn game<'a>(library: &'a AssetLibrary) -> Game<'a> {
    let mut foreground = vec![-1; 500];
    foreground[100 + 6] = 76;
    let stored = vec![
        Highscore::new("a".to_string(), 90),
        Highscore::new("b".to_string(), 50),
        Highscore::new("c".to_string(), 10),
    ];
    let (options, _) = Options::load(stored, &vec![]);
    Game::new(
        library,
        options,
        Score::new(100),
        HighscoreTable::new(3),
        Landscape::new(library.get_image("landscape")),
        Level::new(canvas(), library.get_image("level"), vec![-1; 500], foreground),
        Sleigh::new(library, canvas(), 0),
        0,
    )
}

fn press(game: &mut Game, key: Key, now: u64) -> Option<Request> {
    game.handle_key(key, false, false, now)
}

#[test]
fn keys_lead_through_the_screens_of_the_menu() {
    let library = library();
    let mut game = game(&library);
    assert_eq!(game.mode(), GameMode::Menu);
    assert_eq!(game.background_image_name(), "background");
    assert!(game.shows_world());
    assert!(press(&mut game, Key::F1, 0).is_none());
    assert_eq!(game.mode(), GameMode::HelpSplash1);
    assert_eq!(game.background_image_name(), "helpSplash1");
    assert!(!game.shows_world());
    press(&mut game, Key::F2, 0);
    assert_eq!(game.mode(), GameMode::HelpSplash2);
    assert_eq!(game.background_image_name(), "helpSplash2");
    press(&mut game, Key::F3, 0);
    assert_eq!(game.mode(), GameMode::HelpSplash2);
    press(&mut game, Key::F5, 0);
    assert_eq!(game.mode(), GameMode::HelpSplash2);
    press(&mut game, Key::Space, 0);
    assert_eq!(game.mode(), GameMode::Menu);
    press(&mut game, Key::F3, 0);
    assert_eq!(game.mode(), GameMode::HighscoreTable);
    assert!(game.highscore_table.is_visible());
    press(&mut game, Key::F1, 0);
    assert_eq!(game.mode(), GameMode::HelpSplash1);
    assert!(!game.highscore_table.is_visible());
    press(&mut game, Key::Escape, 0);
    assert_eq!(game.mode(), GameMode::Menu);
    press(&mut game, Key::F3, 0);
    press(&mut game, Key::F3, 0);
    assert_eq!(game.mode(), GameMode::Menu);
    assert!(!game.highscore_table.is_visible());
    press(&mut game, Key::Other, 0);
    press(&mut game, Key::Backspace, 0);
    press(&mut game, Key::Return, 0);
    assert_eq!(game.mode(), GameMode::Menu);
    assert!(!game.quit_flag());
    press(&mut game, Key::Escape, 0);
    assert!(game.quit_flag());
}

#[test]
fn control_c_and_the_window_end_the_program() {
    let library = library();
    let mut game = game(&library);
    assert!(game.handle_key(Key::C, false, false, 0).is_none());
    assert!(!game.quit_flag());
    assert!(game.handle_key(Key::C, true, false, 0).is_none());
    assert!(game.quit_flag());
    let mut game = self::game(&library);
    game.handle_quit();
    assert!(game.quit_flag());
    let mut game = self::game(&library);
    assert_eq!(game.handle_key(Key::Return, false, true, 0), Some(Request::ToggleFullscreen));
    assert_eq!(game.mode(), GameMode::Menu);
}

#[test]
fn run_starts_after_the_countdown_and_ends_with_escape() {
    let library = library();
    let mut game = game(&library);
    game.do_logic(Point::new(px(90), px(60)), 500);
    assert_eq!(game.sleigh.position(), Point::new(px(90), px(60)));
    assert!(game.level.offset_x() > 0);
    press(&mut game, Key::F6, 1_000);
    assert_eq!(game.mode(), GameMode::Running);
    assert_eq!(game.difficulty, GameDifficulty::Hard);
    assert!(game.counting_down);
    assert_eq!(game.sleigh.game_start_instant, 4_000);
    assert_eq!(game.score.game_mode, GameMode::Running);
    assert_eq!(game.level.offset_x(), 0);
    assert_eq!(game.level.scrolling_resume_instant, 4_000);
    assert_eq!(game.landscape.scrolling_resume_instant, 4_000);
    game.do_logic(Point::zero(), 3_999);
    assert_eq!(game.level.offset_x(), 0);
    assert_eq!(game.score.remaining_duration(), 450_000);
    assert!(game.sleigh.counting_down());
    game.do_logic(Point::zero(), 4_100);
    assert!(game.level.offset_x() > 0);
    assert_eq!(game.score.remaining_duration(), 449_900);
    assert!(!game.sleigh.counting_down());
    press(&mut game, Key::Space, 4_100);
    assert_eq!(game.sleigh.gifts.len(), 1);
    press(&mut game, Key::Space, 4_250);
    assert_eq!(game.sleigh.gifts.len(), 1);
    press(&mut game, Key::Space, 4_350);
    assert_eq!(game.sleigh.gifts.len(), 2);
    press(&mut game, Key::F1, 4_300);
    assert_eq!(game.mode(), GameMode::Running);
    press(&mut game, Key::Escape, 4_300);
    assert_eq!(game.mode(), GameMode::Menu);
    assert!(game.sleigh.gifts.is_empty());
    assert!(game.level.npcs.is_empty());
    assert_eq!(game.score.game_mode, GameMode::Menu);
    assert_eq!(game.sleigh.game_mode, GameMode::Menu);
    assert_eq!(game.level.game_mode, GameMode::Menu);
    assert!(!game.quit_flag());
    let mut game = self::game(&library);
    press(&mut game, Key::F5, 0);
    assert_eq!(game.difficulty, GameDifficulty::Easy);
}

#[test]
fn lost_run_leads_over_its_splash_screen_to_the_menu() {
    let library = library();
    let mut game = game(&library);
    press(&mut game, Key::F5, 0);
    game.do_logic(Point::zero(), 3_000);
    game.score.add_damage_points(100);
    let (sounds, request) = game.do_logic(Point::zero(), 3_100);
    assert_eq!(game.mode(), GameMode::LostDueToDamageSplash);
    assert_eq!(game.background_image_name(), "lostDueToDamageSplash");
    assert_eq!(sounds.last().unwrap().name, SoundName::Lost);
    assert!(request.is_none());
    assert_eq!(game.splash_end_instant, 8_100);
    let offset = game.level.offset_x();
    game.do_logic(Point::zero(), 8_099);
    assert_eq!(game.mode(), GameMode::LostDueToDamageSplash);
    assert_eq!(game.level.offset_x(), offset);
    press(&mut game, Key::Escape, 8_099);
    assert_eq!(game.mode(), GameMode::LostDueToDamageSplash);
    game.do_logic(Point::zero(), 8_100);
    assert_eq!(game.mode(), GameMode::Menu);
    assert_eq!(game.level.offset_x(), 0);

    press(&mut game, Key::F5, 10_000);
    game.do_logic(Point::zero(), 13_000 + 449_999);
    assert_eq!(game.mode(), GameMode::Running);
    let (sounds, _) = game.do_logic(Point::zero(), 13_000 + 450_000);
    assert_eq!(game.mode(), GameMode::LostDueToTimeSplash);
    assert_eq!(game.background_image_name(), "lostDueToTimeSplash");
    assert_eq!(sounds.last().unwrap().name, SoundName::Lost);
}

#[test]
fn won_run_enters_the_table_of_high_scores() {
    let library = library();
    let mut game = game(&library);
    press(&mut game, Key::F5, 0);
    game.do_logic(Point::zero(), 3_000);
    game.score.add_gift_points(75);
    game.score.add_damage_points(15);
    game.score.set_won(true);
    let (sounds, _) = game.do_logic(Point::zero(), 3_100);
    assert_eq!(game.mode(), GameMode::WonSplash);
    assert_eq!(game.background_image_name(), "wonSplash");
    assert_eq!(sounds.last().unwrap().name, SoundName::Won);
    let (_, request) = game.do_logic(Point::zero(), 8_099);
    assert_eq!(game.mode(), GameMode::WonSplash);
    assert!(request.is_none());
    let (sounds, request) = game.do_logic(Point::zero(), 8_100);
    assert_eq!(game.mode(), GameMode::NewHighscore);
    assert_eq!(request, Some(Request::StartTextInput));
    assert!(sounds.is_empty());
    assert!(game.shows_world());
    assert_eq!(game.highscore_table.new_highscore_index(), 1);
    assert!(game.highscore_table.is_visible());
    let points: Vec<i32> = game.options.highscores().iter().map(|line| line.points()).collect();
    assert_eq!(points, vec![90, 60, 50, 10, 0, 0, 0, 0, 0, 0]);
    assert_eq!(game.score.game_mode, GameMode::Menu);

    game.handle_text_input("e");
    game.handle_text_input("ve");
    game.handle_text_input("\u{00e4}");
    game.handle_text_input("v");
    game.handle_text_input("a");
    assert_eq!(game.options.highscores()[1].name(), "eva");
    game.handle_text_input("s");
    assert_eq!(game.options.highscores()[1].name(), "eva");
    press(&mut game, Key::Backspace, 9_000);
    assert_eq!(game.options.highscores()[1].name(), "ev");
    press(&mut game, Key::Backspace, 9_000);
    press(&mut game, Key::Backspace, 9_000);
    press(&mut game, Key::Backspace, 9_000);
    assert_eq!(game.options.highscores()[1].name(), "");
    game.handle_text_input("x");
    game.do_logic(Point::zero(), 9_500);
    assert_eq!(game.mode(), GameMode::NewHighscore);
    assert_eq!(press(&mut game, Key::KpEnter, 10_000), Some(Request::SaveOptionsAndStopTextInput));
    assert_eq!(game.mode(), GameMode::HighscoreTable);
    assert_eq!(game.options.highscores()[1].name(), "x");
    assert_eq!(game.options.highscores()[0].name(), "a");
    game.handle_text_input("y");
    assert_eq!(game.options.highscores()[1].name(), "x");
}

#[test]
fn run_below_every_line_only_shows_the_table() {
    let library = library();
    let mut game = game(&library);
    press(&mut game, Key::F5, 0);
    game.do_logic(Point::zero(), 3_000);
    game.score.add_damage_points(5);
    game.score.set_won(true);
    game.do_logic(Point::zero(), 3_100);
    let (_, request) = game.do_logic(Point::zero(), 9_000);
    assert_eq!(game.mode(), GameMode::HighscoreTable);
    assert!(request.is_none());
    let points: Vec<i32> = game.options.highscores().iter().map(|line| line.points()).collect();
    assert_eq!(points, vec![90, 50, 10, 0, 0, 0, 0, 0, 0, 0]);
}

#[test]
fn finish_that_is_reached_in_the_menu_starts_the_menu_again() {
    let library = library();
    let mut game = game(&library);
    game.do_logic(Point::new(px(500), px(60)), 100);
    assert_eq!(game.mode(), GameMode::Menu);
    assert_eq!(game.level.npcs.len(), 1);
    let (sounds, _) = game.do_logic(Point::new(px(500), px(60)), 200);
    assert_eq!(game.mode(), GameMode::Menu);
    assert!(sounds.is_empty());
    assert!(!game.score.won());
    assert_eq!(game.level.offset_x(), 0);
    assert!(game.level.npcs.is_empty());
}

#[test]
fn picture_is_fitted_into_the_window() {
    assert_eq!(letterbox((640, 480), (640, 480)), (0, 0, 640, 480));
    assert_eq!(letterbox((1280, 480), (640, 480)), (320, 0, 640, 480));
    assert_eq!(letterbox((640, 960), (640, 480)), (0, 240, 640, 480));
    assert_eq!(letterbox((1000, 700), (640, 480)), (33, 0, 933, 700));
    assert_eq!(letterbox((700, 1000), (640, 480)), (0, 237, 700, 525));
    assert_eq!(letterbox((0, 0), (640, 480)), (0, 0, 0, 0));
}
