use santa_racer::asset::{number_of_frames_of, AssetLibrary, Image, Point};
use santa_racer::font::Font;
use santa_racer::level::Level;
use santa_racer::sleigh::Sleigh;
use santa_racer::ui::{number_to_text, time_to_text, Score, ScoreIcons};

#[allow(dead_code)]
fn px(pixels: i64) -> i64 {
    pixels * 1_000_000
}

#[allow(dead_code)]
fn opaque(name: &str, frame_width: u32, frame_height: u32, frames: (i32, i32)) -> Image {
    let width = frame_width * frames.0 as u32;
    let height = frame_height * frames.1 as u32;
    Image::new(name.to_string(), width, height, frames, vec![true; (width * height) as usize])
}

#[allow(dead_code)]
fn library() -> AssetLibrary {
    let mut library = AssetLibrary::new();
    let images: [(&str, u32, u32); 30] = [
        ("sleigh", 8, 8),
        ("reindeer", 8, 8),
        ("electrocutedSleigh", 12, 12),
        ("electrocutedReindeer", 12, 12),
        ("shield", 16, 16),
        ("star", 2, 2),
        ("smallStar", 1, 1),
        ("drunkStar", 2, 2),
        ("smallDrunkStar", 1, 1),
        ("gift1", 4, 4),
        ("gift2", 4, 4),
        ("gift3", 4, 4),
        ("bigStar", 6, 6),
        ("points10", 5, 3),
        ("points15", 5, 3),
        ("points20", 5, 3),
        ("angel", 8, 8),
        ("cashBalloon", 8, 8),
        ("giftBalloon", 8, 8),
        ("heartBalloon", 8, 8),
        ("shieldBalloon", 8, 8),
        ("wineBalloon", 8, 8),
        ("cloud", 8, 8),
        ("finish", 8, 8),
        ("goblin", 8, 8),
        ("goblinSnowball", 2, 2),
        ("snowman", 8, 8),
        ("level", 64, 64),
        ("font", 4, 6),
        ("landscape", 640, 480),
    ];
    for (name, width, height) in images.iter() {
        let frames = number_of_frames_of(name);
        library.add_image(name.to_string(), opaque(name, *width, *height, frames));
    }
    library.add_data("chimneys".to_string(), vec![10, 5, 20, 3, 0, 0, 64, 7]);
    let mut widths: Vec<i64> = Vec::new();
    for i in 0..46 {
        widths.push(3 + (i % 3));
    }
    library.add_data("fontCharacterWidths".to_string(), widths);
    library
}

#[allow(dead_code)]
fn canvas() -> Point {
    Point::new(px(640), px(480))
}

#[allow(dead_code)]
fn empty_level<'a>(library: &'a AssetLibrary, columns: usize) -> Level<'a> {
    Level::new(canvas(), library.get_image("level"), vec![-1; 5 * columns], vec![-1; 5 * columns])
}


fn text(characters: Vec<char>) -> String {
    characters.into_iter().collect()
}

#[test]
fn numbers_are_written_in_decimal_notation() {
    assert_eq!(text(number_to_text(0)), "0");
    assert_eq!(text(number_to_text(7)), "7");
    assert_eq!(text(number_to_text(10)), "10");
    assert_eq!(text(number_to_text(-35)), "-35");
    assert_eq!(text(number_to_text(1_234_567_890)), "1234567890");
    assert_eq!(text(number_to_text(i64::MAX)), "9223372036854775807");
    assert_eq!(text(number_to_text(i64::MIN)), "-9223372036854775808");
}

#[test]
fn time_is_written_as_minutes_and_two_digits_of_seconds() {
    assert_eq!(text(time_to_text(0)), "0:00");
    assert_eq!(text(time_to_text(450_000)), "7:30");
    assert_eq!(text(time_to_text(449_999)), "7:29");
    assert_eq!(text(time_to_text(61_000)), "1:01");
    assert_eq!(text(time_to_text(9_999)), "0:09");
    assert_eq!(text(time_to_text(3_600_000)), "60:00");
}

fn drawn(score: &Score) -> Vec<(String, i64, i64, u64)> {
    let library = library();
    let font = Font::new(&library);
    let icons = ScoreIcons {
        gift_image: library.get_image("points10"),
        damage_image: library.get_image("points15"),
        time_image: library.get_image("points20"),
    };
    score
        .draw(&font, icons, canvas())
        .iter()
        .map(|sprite| (sprite.image.name().clone(), sprite.position.x, sprite.position.y, sprite.frame))
        .collect()
}

#[test]
fn score_of_a_run_shows_points_and_time_beside_their_images() {
    let mut score = Score::new(100);
    score.start_game(0);
    score.add_gift_points(7);
    score.add_damage_points(35);
    score.do_logic(1_000);
    let sprites = drawn(&score);
    let names: Vec<&str> = sprites.iter().map(|sprite| sprite.0.as_str()).collect();
    assert_eq!(
        names,
        vec![
            "points10", "font", "points15", "font", "font", "font", "points20", "font", "font",
            "font", "font"
        ]
    );
    assert_eq!(sprites[0], ("points10".to_string(), 0, 0, 0));
    assert_eq!(sprites[1], ("font".to_string(), px(35) + 500_000, -1_500_000, 10_000));
    assert_eq!(sprites[2], ("points15".to_string(), px(150), 0, 0));
    assert_eq!(sprites[3].3, 0);
    assert_eq!(sprites[4].3, 6_000);
    assert_eq!(sprites[5].3, 8_000);
    assert_eq!(sprites[6], ("points20".to_string(), px(535), 0, 0));
    let frames: Vec<u64> = sprites[7..].iter().map(|sprite| sprite.3).collect();
    assert_eq!(frames, vec![10_000, 13_000, 5_000, 12_000]);
}

#[test]
fn score_in_the_menu_shows_the_keys() {
    let score = Score::new(100);
    let sprites = drawn(&score);
    assert_eq!(sprites.len(), 11 + 13 + 10);
    assert_eq!(sprites[0], ("font".to_string(), 0, 0, 20_000));
    assert!(sprites.iter().all(|sprite| sprite.0 == "font" && sprite.2 == 0));
    let last = sprites.last().unwrap();
    assert_eq!(last.3, 28_000);
    assert!(last.1 < px(640));
}

#[test]
fn countdown_is_written_before_the_sleigh() {
    let library = library();
    let level = empty_level(&library, 100);
    let font = Font::new(&library);
    let mut sleigh = Sleigh::new(&library, canvas(), 0);
    assert!(sleigh.draw_countdown(&font).is_empty());
    sleigh.start_game(3_000);
    let mut score = Score::new(100);
    sleigh.do_logic(&mut score, &level, Point::zero(), 500);
    let sprites = sleigh.draw_countdown(&font);
    assert_eq!(sprites.len(), 1);
    assert_eq!(sprites[0].frame, 6_000);
    assert_eq!(sprites[0].position, Point::new(px(38), px(101)));
}
