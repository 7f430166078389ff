use santa_racer::asset::{number_of_frames_of, AssetLibrary, Image, Point};
use santa_racer::level::Level;
use santa_racer::asset::{Sound, SoundName};
use santa_racer::game::GameDifficulty;
use santa_racer::gift::{Chimney, Gift, GiftMode};
use santa_racer::sleigh::Sleigh;
use santa_racer::ui::Score;

#[allow(dead_code)]
fn px(pixels: i64) -> i64 {
    pixels * 1_000_000
}

#[allow(dead_code)]
fn opaque(name: &str, frame_width: u32, frame_height: u32, frames: (i32, i32)) -> Image {
    let width = frame_width * frames.0 as u32;
    let height = frame_height * frames.1 as u32;
    Image::new(name.to_string(), width, height, frames, vec![true; (width * height) as usize])
}

#[allow(dead_code)]
fn library() -> AssetLibrary {
    let mut library = AssetLibrary::new();
    let images: [(&str, u32, u32); 30] = [
        ("sleigh", 8, 8),
        ("reindeer", 8, 8),
        ("electrocutedSleigh", 12, 12),
        ("electrocutedReindeer", 12, 12),
        ("shield", 16, 16),
        ("star", 2, 2),
        ("smallStar", 1, 1),
        ("drunkStar", 2, 2),
        ("smallDrunkStar", 1, 1),
        ("gift1", 4, 4),
        ("gift2", 4, 4),
        ("gift3", 4, 4),
        ("bigStar", 6, 6),
        ("points10", 5, 3),
        ("points15", 5, 3),
        ("points20", 5, 3),
        ("angel", 8, 8),
        ("cashBalloon", 8, 8),
        ("giftBalloon", 8, 8),
        ("heartBalloon", 8, 8),
        ("shieldBalloon", 8, 8),
        ("wineBalloon", 8, 8),
        ("cloud", 8, 8),
        ("finish", 8, 8),
        ("goblin", 8, 8),
        ("goblinSnowball", 2, 2),
        ("snowman", 8, 8),
        ("level", 64, 64),
        ("font", 4, 6),
        ("landscape", 640, 480),
    ];
    for (name, width, height) in images.iter() {
        let frames = number_of_frames_of(name);
        library.add_image(name.to_string(), opaque(name, *width, *height, frames));
    }
    library.add_data("chimneys".to_string(), vec![10, 5, 20, 3, 0, 0, 64, 7]);
    let mut widths: Vec<i64> = Vec::new();
    for i in 0..46 {
        widths.push(3 + (i % 3));
    }
    library.add_data("fontCharacterWidths".to_string(), widths);
    library
}

#[allow(dead_code)]
fn canvas() -> Point {
    Point::new(px(640), px(480))
}

#[allow(dead_code)]
fn empty_level<'a>(library: &'a AssetLibrary, columns: usize) -> Level<'a> {
    Level::new(canvas(), library.get_image("level"), vec![-1; 5 * columns], vec![-1; 5 * columns])
}

fn falling<'a>(library: &'a AssetLibrary, position: Point, velocity: Point, bonus: bool) -> Gift<'a> {
    Gift::dropped(
        library.get_image("gift1"),
        library.get_image("bigStar"),
        library.get_image("points10"),
        library.get_image("points15"),
        library.get_image("points20"),
        canvas(),
        bonus,
        position,
        velocity,
        0,
        0,
    )
}

fn level_with_chimney_tile<'a>(library: &'a AssetLibrary, row: usize) -> Level<'a> {
    let mut background = vec![-1; 500];
    background[1 + row * 100] = 3;
    Level::new(canvas(), library.get_image("level"), background, vec![-1; 500])
}

#[test]
fn gift_without_chimney_falls_to_the_ground_and_costs_damage_once() {
    let library = library();
    let level = empty_level(&library, 100);
    let mut score = Score::new(1000);
    let chimneys: Vec<Chimney> = Vec::new();
    let mut gift = falling(&library, Point::new(px(100), px(50)), Point::new(0, 50_000), false);
    assert_eq!(gift.acceleration, Point::new(0, 200));
    assert_eq!(gift.damage_points, 15);

    let sound = gift.do_logic(&mut score, &level, &chimneys, false, 1_000);
    assert_eq!(gift.mode(), GiftMode::Falling);
    assert_eq!(gift.velocity, Point::new(0, 250_000));
    assert_eq!(gift.position, Point::new(px(100), px(300)));
    assert_eq!(gift.frame, 15_000);
    assert_eq!(score.damage_points(), 0);
    assert!(sound.is_none());

    let sound = gift.do_logic(&mut score, &level, &chimneys, false, 2_000);
    assert_eq!(gift.mode(), GiftMode::CanBeDeleted);
    assert_eq!(gift.position, Point::new(px(100), px(750)));
    assert_eq!(score.damage_points(), 15);
    assert_eq!(
        sound,
        Some(Sound::play_with_position(SoundName::GiftCollidedWithGround, canvas(), px(100)))
    );

    let sound = gift.do_logic(&mut score, &level, &chimneys, false, 3_000);
    assert_eq!(gift.mode(), GiftMode::CanBeDeleted);
    assert_eq!(gift.position, Point::new(px(100), px(750)));
    assert_eq!(score.damage_points(), 15);
    assert_eq!(score.gift_points(), 0);
    assert!(sound.is_none());
}

#[test]
fn gift_on_the_ground_line_has_reached_the_ground() {
    let library = library();
    let level = empty_level(&library, 100);
    let mut score = Score::new(1000);
    let mut gift = falling(&library, Point::new(0, px(480) - 1), Point::new(0, 0), false);
    gift.acceleration = Point::new(0, 0);
    gift.do_logic(&mut score, &level, &Vec::new(), false, 10);
    assert_eq!(gift.mode(), GiftMode::Falling);
    gift.position.y = px(480);
    gift.do_logic(&mut score, &level, &Vec::new(), false, 20);
    assert_eq!(gift.mode(), GiftMode::CanBeDeleted);
}

fn drop_into_chimney(row: usize, bonus: bool) -> (GiftMode, i64, Option<Sound>, u64) {
    let library = library();
    let level = level_with_chimney_tile(&library, row);
    let chimneys = Sleigh::load_chimneys(&vec![10, 5, 20, 3]);
    let mut score = Score::new(1000);
    let top = px(64 * row as i64);
    let mut gift = falling(&library, Point::new(px(80), top - px(28)), Point::new(0, 0), !bonus);
    let sound = gift.do_logic(&mut score, &level, &chimneys, bonus, 500);
    assert_eq!(gift.bonus, bonus);
    assert_eq!(gift.position, Point::new(px(80), top + px(22)));
    assert_eq!(score.damage_points(), 0);
    (gift.mode(), score.gift_points(), sound, gift.frame)
}

#[test]
fn chimney_wins_the_points_of_its_row() {
    let chimney_sound =
        Some(Sound::play_with_position(SoundName::GiftCollidedWithChimney, canvas(), px(80)));
    assert_eq!(drop_into_chimney(0, false), (GiftMode::ShowingPoints(10), 10, chimney_sound, 0));
    assert_eq!(drop_into_chimney(1, false).0, GiftMode::ShowingPoints(10));
    assert_eq!(drop_into_chimney(2, false), (GiftMode::ShowingPoints(15), 15, chimney_sound, 0));
    assert_eq!(drop_into_chimney(3, false).0, GiftMode::ShowingPoints(20));
    assert_eq!(drop_into_chimney(4, false), (GiftMode::ShowingPoints(20), 20, chimney_sound, 0));
}

#[test]
fn bonus_counts_as_the_sleigh_holds_it_when_the_gift_arrives() {
    let library = library();
    let level = level_with_chimney_tile(&library, 2);
    let chimneys = Sleigh::load_chimneys(&vec![10, 5, 20, 3]);
    let mut score = Score::new(1000);
    let mut sleigh = Sleigh::new(&library, canvas(), 0);
    sleigh.start_game(0);
    sleigh.do_logic(&mut score, &level, Point::zero(), 0);
    sleigh.start_bonus(0);
    sleigh.gifts.push(falling(&library, Point::new(px(80), px(100)), Point::new(0, 0), true));
    sleigh.do_logic(&mut score, &level, Point::zero(), 500);
    assert_eq!(score.gift_points(), 30);
    assert_eq!(sleigh.gifts[0].mode(), GiftMode::ShowingPoints(15));

    let mut score = Score::new(1000);
    sleigh.gifts.clear();
    let mut dropped_with_bonus = falling(&library, Point::new(px(80), px(100)), Point::new(0, 0), true);
    dropped_with_bonus.last_update_instant = 14_500;
    sleigh.gifts.push(dropped_with_bonus);
    sleigh.do_logic(&mut score, &level, Point::zero(), 15_000);
    assert!(!sleigh.bonus());
    assert_eq!(score.gift_points(), 15);
    assert!(!sleigh.gifts[0].bonus);

    let mut score = Score::new(1000);
    sleigh.gifts.clear();
    let mut dropped_without = falling(&library, Point::new(px(80), px(100)), Point::new(0, 0), false);
    dropped_without.last_update_instant = 15_500;
    sleigh.gifts.push(dropped_without);
    sleigh.start_bonus(15_900);
    sleigh.do_logic(&mut score, &level, Point::zero(), 16_000);
    assert_eq!(score.gift_points(), 30);
    assert!(sleigh.gifts[0].bonus);
}

#[test]
fn bonus_doubles_the_points() {
    assert_eq!(drop_into_chimney(0, true).1, 20);
    assert_eq!(drop_into_chimney(2, true).1, 30);
    assert_eq!(drop_into_chimney(4, true), (GiftMode::ShowingPoints(20), 40, drop_into_chimney(4, false).2, 0));
}

#[test]
fn chimney_of_another_marker_or_beside_the_gift_is_missed() {
    let library = library();
    let level = level_with_chimney_tile(&library, 2);
    let mut score = Score::new(1000);
    let other = Sleigh::load_chimneys(&vec![10, 5, 20, 4]);
    let mut gift = falling(&library, Point::new(px(80), px(100)), Point::new(0, 0), false);
    gift.do_logic(&mut score, &level, &other, false, 500);
    assert_eq!(gift.mode(), GiftMode::Falling);
    let chimneys = Sleigh::load_chimneys(&vec![10, 5, 20, 3]);
    let mut gift = falling(&library, Point::new(px(71), px(100)), Point::new(0, 0), false);
    gift.do_logic(&mut score, &level, &chimneys, false, 500);
    assert_eq!(gift.mode(), GiftMode::Falling);
    let mut gift = falling(&library, Point::new(px(72), px(100)), Point::new(0, 0), false);
    gift.do_logic(&mut score, &level, &chimneys, false, 500);
    assert_eq!(gift.mode(), GiftMode::ShowingPoints(15));
    let mut gift = falling(&library, Point::new(px(92), px(100)), Point::new(0, 0), false);
    gift.do_logic(&mut score, &level, &chimneys, false, 500);
    assert_eq!(gift.mode(), GiftMode::ShowingPoints(15));
    let mut gift = falling(&library, Point::new(px(93), px(100)), Point::new(0, 0), false);
    gift.do_logic(&mut score, &level, &chimneys, false, 500);
    assert_eq!(gift.mode(), GiftMode::Falling);
    assert_eq!(score.gift_points(), 30);
}

#[test]
fn show_of_the_points_ends_with_the_last_star() {
    let library = library();
    let level = empty_level(&library, 100);
    let mut score = Score::new(1000);
    let mut gift = falling(&library, Point::new(px(80), px(100)), Point::new(0, 0), true);
    gift.mode = GiftMode::ShowingPoints(15);
    let position = gift.position;
    gift.do_logic(&mut score, &level, &Vec::new(), false, 933);
    assert_eq!(gift.mode(), GiftMode::ShowingPoints(15));
    assert_eq!(gift.frame, 13_995);
    assert_eq!(gift.position, position);
    gift.do_logic(&mut score, &level, &Vec::new(), false, 934);
    assert_eq!(gift.frame, 14_010);
    assert_eq!(gift.mode(), GiftMode::CanBeDeleted);
    gift.do_logic(&mut score, &level, &Vec::new(), false, 100_000);
    assert_eq!(gift.mode(), GiftMode::CanBeDeleted);
    assert_eq!(gift.frame, 14_010);
    assert_eq!(score.gift_points(), 0);
    assert_eq!(score.damage_points(), 0);
}

#[test]
fn dropped_gift_starts_under_the_sleigh_and_moves_with_the_level() {
    let library = library();
    let mut level = empty_level(&library, 100);
    level.offset_x = px(1000);
    level.scroll_speed_x = 70_000;
    let mut sleigh = Sleigh::new(&library, canvas(), 0);
    sleigh.position = Point::new(px(50), px(100));
    sleigh.velocity = Point::new(-30_000, 20_000);
    sleigh.bonus = true;
    for _ in 0..50 {
        let gift = Gift::new(&library, &level, &sleigh, canvas(), GameDifficulty::Easy, 7);
        assert_eq!(gift.position, Point::new(px(1050), px(108)));
        assert_eq!(gift.velocity, Point::new(70_000, 50_000));
        assert_eq!(gift.mode(), GiftMode::Falling);
        assert!(gift.bonus);
        assert_eq!(gift.last_update_instant, 7);
        assert_eq!(gift.frame % 1000, 0);
        assert!(gift.frame / 1000 < 15);
        assert!(["gift1", "gift2", "gift3"].contains(&gift.image.name().as_str()));
        let gift = Gift::new(&library, &level, &sleigh, canvas(), GameDifficulty::Hard, 7);
        assert_eq!(gift.velocity, Point::new(40_000, 70_000));
    }
}

#[test]
fn gift_is_drawn_as_it_falls_and_as_it_shows_its_points() {
    let library = library();
    let mut gift = falling(&library, Point::new(px(80), px(100)), Point::new(0, 0), false);
    gift.frame = 3_000;
    let sprites = gift.draw(px(30));
    assert_eq!(sprites.len(), 1);
    assert_eq!(sprites[0].position, Point::new(px(50), px(100)));
    assert_eq!(sprites[0].frame, 3_000);
    assert_eq!(sprites[0].image.name(), "gift1");

    gift.mode = GiftMode::ShowingPoints(20);
    gift.frame = 2_500;
    let sprites = gift.draw(px(30));
    assert_eq!(sprites.len(), 3);
    assert_eq!(sprites[0].image.name(), "bigStar");
    assert_eq!(sprites[0].position, Point::new(px(57), px(107)));
    assert_eq!(sprites[0].frame, 2_500);
    assert_eq!(sprites[1].position, Point::new(px(72), px(112)));
    assert_eq!(sprites[1].frame, 500);
    assert_eq!(sprites[2].image.name(), "points20");
    assert_eq!(sprites[2].position, Point::new(px(60), px(113)));
    assert_eq!(sprites[2].frame, 0);

    gift.bonus = true;
    gift.frame = 12_500;
    let sprites = gift.draw(px(30));
    assert_eq!(sprites.len(), 4);
    assert_eq!(sprites[0].position, Point::new(px(62), px(122)));
    assert_eq!(sprites[0].frame, 8_500);
    assert_eq!(sprites[1].position, Point::new(px(72), px(132)));
    assert_eq!(sprites[3].position, Point::new(px(70), px(123)));

    gift.mode = GiftMode::ShowingPoints(7);
    assert_eq!(gift.draw(0).last().unwrap().image.name(), "points10");
    gift.mode = GiftMode::ShowingPoints(15);
    assert_eq!(gift.draw(0).last().unwrap().image.name(), "points15");
    gift.mode = GiftMode::CanBeDeleted;
    assert!(gift.draw(0).is_empty());
}

#[test]
fn chimney_keeps_its_parts() {
    let chimney = Chimney::new(Point::new(1, 2), Point::new(3, 4), 5);
    assert_eq!(chimney.position, Point::new(1, 2));
    assert_eq!(chimney.size, Point::new(3, 4));
    assert_eq!(chimney.frame, 5);
    let chimneys = Sleigh::load_chimneys(&vec![10, 5, 20, 3, 0, 0, 64, 7]);
    assert_eq!(
        chimneys,
        vec![
            Chimney::new(Point::new(px(10), px(5)), Point::new(px(20), px(20)), 3),
            Chimney::new(Point::new(0, 0), Point::new(px(64), px(20)), 7),
        ]
    );
}
