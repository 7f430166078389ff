use santa_racer::asset::{number_of_frames_of, AssetLibrary, Image, Point};
use santa_racer::level::Level;
use santa_racer::font::{Font, NUMBER_OF_CHARACTERS};
use santa_racer::ui::Alignment;

#[allow(dead_code)]
fn px(pixels: i64) -> i64 {
    pixels * 1_000_000
}

#[allow(dead_code)]
fn opaque(name: &str, frame_width: u32, frame_height: u32, frames: (i32, i32)) -> Image {
    let width = frame_width * frames.0 as u32;
    let height = frame_height * frames.1 as u32;
    Image::new(name.to_string(), width, height, frames, vec![true; (width * height) as usize])
}

#[allow(dead_code)]
fn library() -> AssetLibrary {
    let mut library = AssetLibrary::new();
    let images: [(&str, u32, u32); 30] = [
        ("sleigh", 8, 8),
        ("reindeer", 8, 8),
        ("electrocutedSleigh", 12, 12),
        ("electrocutedReindeer", 12, 12),
        ("shield", 16, 16),
        ("star", 2, 2),
        ("smallStar", 1, 1),
        ("drunkStar", 2, 2),
        ("smallDrunkStar", 1, 1),
        ("gift1", 4, 4),
        ("gift2", 4, 4),
        ("gift3", 4, 4),
        ("bigStar", 6, 6),
        ("points10", 5, 3),
        ("points15", 5, 3),
        ("points20", 5, 3),
        ("angel", 8, 8),
        ("cashBalloon", 8, 8),
        ("giftBalloon", 8, 8),
        ("heartBalloon", 8, 8),
        ("shieldBalloon", 8, 8),
        ("wineBalloon", 8, 8),
        ("cloud", 8, 8),
        ("finish", 8, 8),
        ("goblin", 8, 8),
        ("goblinSnowball", 2, 2),
        ("snowman", 8, 8),
        ("level", 64, 64),
        ("font", 4, 6),
        ("landscape", 640, 480),
    ];
    for (name, width, height) in images.iter() {
        let frames = number_of_frames_of(name);
        library.add_image(name.to_string(), opaque(name, *width, *height, frames));
    }
    library.add_data("chimneys".to_string(), vec![10, 5, 20, 3, 0, 0, 64, 7]);
    let mut widths: Vec<i64> = Vec::new();
    for i in 0..46 {
        widths.push(3 + (i % 3));
    }
    library.add_data("fontCharacterWidths".to_string(), widths);
    library
}

#[allow(dead_code)]
fn canvas() -> Point {
    Point::new(px(640), px(480))
}

#[allow(dead_code)]
fn empty_level<'a>(library: &'a AssetLibrary, columns: usize) -> Level<'a> {
    Level::new(canvas(), library.get_image("level"), vec![-1; 5 * columns], vec![-1; 5 * columns])
}


fn chars(text: &str) -> Vec<char> {
    text.chars().collect()
}

#[test]
fn font_knows_its_characters() {
    let library = library();
    let font = Font::new(&library);
    assert_eq!(NUMBER_OF_CHARACTERS, 46);
    assert_eq!(font.characters.len(), 46);
    assert_eq!(font.character_widths.len(), 46);
    assert_eq!(font.max_character_width, 5);
    assert_eq!(font.frame('-'), 0);
    assert_eq!(font.frame('0'), 3);
    assert_eq!(font.frame('@'), 14);
    assert_eq!(font.frame('A'), 15);
    assert_eq!(font.frame('Z'), 40);
    assert_eq!(font.frame('_'), 41);
    assert_eq!(font.frame('\u{00c4}'), 42);
    assert_eq!(font.frame('\u{00dc}'), 44);
    assert_eq!(font.frame(' '), 45);
}

#[test]
fn font_takes_any_table_of_widths_that_is_not_empty() {
    let mut library = library();
    library.add_data("fontCharacterWidths".to_string(), vec![4, 9, i64::MAX, -3]);
    let font = Font::new(&library);
    assert_eq!(font.character_widths, vec![4, 9, i32::MAX, -3]);
    assert_eq!(font.max_character_width, i32::MAX);
    assert!(!font.has_width_of_every_character());
    assert_eq!(font.frame('A'), 15);
    library.add_data("fontCharacterWidths".to_string(), vec![7; 46]);
    let font = Font::new(&library);
    assert!(font.has_width_of_every_character());
    assert_eq!(font.max_character_width, 7);
}

#[test]
fn small_letters_are_shown_as_capitals_and_unknown_characters_as_the_first() {
    let library = library();
    let font = Font::new(&library);
    assert_eq!(font.frame('a'), 15);
    assert_eq!(font.frame('z'), 40);
    assert_eq!(font.frame('\u{00e4}'), 42);
    assert_eq!(font.frame('%'), 0);
    assert_eq!(font.frame('\u{00df}'), 33);
}

#[test]
fn capital_stands_in_for_a_character_that_the_font_does_not_know() {
    let library = library();
    let font = Font::new(&library);
    assert_eq!(font.frame_for('q', Some('Q')), 31);
    assert_eq!(font.frame_for('q', Some('A')), 15);
    assert_eq!(font.frame_for('Q', Some('A')), 31);
    assert_eq!(font.frame_for('q', Some('q')), 0);
    assert_eq!(font.frame_for('q', None), 0);
    assert_eq!(font.frame_for('%', Some('.')), 1);
}

fn places(font: &Font, text: &str, alignment: Alignment, monospace: bool) -> Vec<(i64, i64, u64)> {
    let sprites = if monospace {
        font.draw_monospace(Point::new(px(100), px(50)), &chars(text), alignment)
    } else {
        font.draw(Point::new(px(100), px(50)), &chars(text), alignment)
    };
    sprites
        .iter()
        .map(|sprite| {
            assert_eq!(sprite.image.name(), "font");
            (sprite.position.x, sprite.position.y, sprite.frame)
        })
        .collect()
}

#[test]
fn characters_follow_each_other_by_their_widths() {
    let library = library();
    let font = Font::new(&library);
    assert_eq!(
        places(&font, "A B", Alignment::TopLeft, false),
        vec![(px(100), px(50), 15_000), (px(106), px(50), 16_000)]
    );
    assert_eq!(places(&font, "", Alignment::Center, false), vec![]);
    assert_eq!(places(&font, "  ", Alignment::Center, true), vec![]);
    assert_eq!(
        places(&font, "ab", Alignment::TopLeft, false),
        vec![(px(100), px(50), 15_000), (px(103), px(50), 16_000)]
    );
}

#[test]
fn alignment_moves_the_text_by_halves_of_its_size() {
    let library = library();
    let font = Font::new(&library);
    assert_eq!(places(&font, "A B", Alignment::TopCenter, false)[0], (px(95), px(50), 15_000));
    assert_eq!(places(&font, "A B", Alignment::TopRight, false)[0], (px(90), px(50), 15_000));
    assert_eq!(places(&font, "A B", Alignment::CenterLeft, false)[0], (px(100), px(47), 15_000));
    assert_eq!(places(&font, "A B", Alignment::Center, false)[0], (px(95), px(47), 15_000));
    assert_eq!(places(&font, "A B", Alignment::BottomRight, false)[0], (px(90), px(44), 15_000));
    assert_eq!(places(&font, "AB", Alignment::TopRight, false)[0], (px(94), px(50), 15_000));
}

#[test]
fn monospace_puts_each_character_in_the_middle_of_its_place() {
    let library = library();
    let font = Font::new(&library);
    assert_eq!(
        places(&font, "A B", Alignment::TopLeft, true),
        vec![(px(101), px(50), 15_000), (104_500_000, px(50), 16_000)]
    );
    assert_eq!(places(&font, "A B", Alignment::TopRight, true)[0], (px(87), px(50), 15_000));
    assert_eq!(places(&font, "\u{00c4}", Alignment::TopRight, true)[0], (px(91), px(50), 42_000));
    assert_eq!(places(&font, "\u{00c4}", Alignment::TopRight, false)[0], (px(98), px(50), 42_000));
}
