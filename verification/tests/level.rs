use santa_racer::asset::{number_of_frames_of, AssetLibrary, Image, Point};
use santa_racer::level::Level;
use santa_racer::game::GameMode;
use santa_racer::level::{
    Landscape, MAX_SCROLL_SPEED_X, MENU_SCROLL_SPEED_X, MIN_SCROLL_SPEED_X, NUMBER_OF_MAP_ROWS,
};
use santa_racer::npc::Npc;
use santa_racer::sleigh::Sleigh;
use santa_racer::ui::Score;

#[allow(dead_code)]
fn px(pixels: i64) -> i64 {
    pixels * 1_000_000
}

#[allow(dead_code)]
fn opaque(name: &str, frame_width: u32, frame_height: u32, frames: (i32, i32)) -> Image {
    let width = frame_width * frames.0 as u32;
    let height = frame_height * frames.1 as u32;
    Image::new(name.to_string(), width, height, frames, vec![true; (width * height) as usize])
}

#[allow(dead_code)]
fn library() -> AssetLibrary {
    let mut library = AssetLibrary::new();
    let images: [(&str, u32, u32); 30] = [
        ("sleigh", 8, 8),
        ("reindeer", 8, 8),
        ("electrocutedSleigh", 12, 12),
        ("electrocutedReindeer", 12, 12),
        ("shield", 16, 16),
        ("star", 2, 2),
        ("smallStar", 1, 1),
        ("drunkStar", 2, 2),
        ("smallDrunkStar", 1, 1),
        ("gift1", 4, 4),
        ("gift2", 4, 4),
        ("gift3", 4, 4),
        ("bigStar", 6, 6),
        ("points10", 5, 3),
        ("points15", 5, 3),
        ("points20", 5, 3),
        ("angel", 8, 8),
        ("cashBalloon", 8, 8),
        ("giftBalloon", 8, 8),
        ("heartBalloon", 8, 8),
        ("shieldBalloon", 8, 8),
        ("wineBalloon", 8, 8),
        ("cloud", 8, 8),
        ("finish", 8, 8),
        ("goblin", 8, 8),
        ("goblinSnowball", 2, 2),
        ("snowman", 8, 8),
        ("level", 64, 64),
        ("font", 4, 6),
        ("landscape", 640, 480),
    ];
    for (name, width, height) in images.iter() {
        let frames = number_of_frames_of(name);
        library.add_image(name.to_string(), opaque(name, *width, *height, frames));
    }
    library.add_data("chimneys".to_string(), vec![10, 5, 20, 3, 0, 0, 64, 7]);
    let mut widths: Vec<i64> = Vec::new();
    for i in 0..46 {
        widths.push(3 + (i % 3));
    }
    library.add_data("fontCharacterWidths".to_string(), widths);
    library
}

#[allow(dead_code)]
fn canvas() -> Point {
    Point::new(px(640), px(480))
}

#[allow(dead_code)]
fn empty_level<'a>(library: &'a AssetLibrary, columns: usize) -> Level<'a> {
    Level::new(canvas(), library.get_image("level"), vec![-1; 5 * columns], vec![-1; 5 * columns])
}

#[test]
fn visible_tiles_are_the_window_of_columns_in_every_row() {
    let library = library();
    let mut level = Level::new(
        Point::new(px(600), px(480)),
        library.get_image("level"),
        vec![0; 500],
        vec![-1; 500],
    );
    assert_eq!(level.number_of_map_columns(), 100);
    assert_eq!(level.tile_size(), Point::new(px(64), px(64)));
    assert_eq!(level.number_of_visible_map_columns, 10);
    level.offset_x = px(640);
    let tiles = level.visible_tiles();
    let mut expected = Vec::new();
    for y in 0..5 {
        for x in 10..21 {
            expected.push((x, y));
        }
    }
    assert_eq!(tiles, expected);
    assert_eq!(level.first_visible_column(), 10);
    assert_eq!(level.end_of_visible_columns(), 21);
    assert!(tiles.iter().all(|tile| tile.1 < NUMBER_OF_MAP_ROWS));
    assert!(level.is_tile_visible((10, 0)));
    assert!(level.is_tile_visible((20, 4)));
    assert!(!level.is_tile_visible((9, 0)));
    assert!(!level.is_tile_visible((21, 0)));
    assert!(!level.is_tile_visible((10, 5)));
}

#[test]
fn window_moves_with_the_offset_and_ends_with_the_grid() {
    let library = library();
    let mut level = Level::new(
        Point::new(px(600), px(480)),
        library.get_image("level"),
        vec![0; 500],
        vec![-1; 500],
    );
    level.offset_x = px(640) - 1;
    assert_eq!(level.first_visible_column(), 9);
    assert_eq!(level.end_of_visible_columns(), 20);
    level.offset_x = px(64 * 95);
    assert_eq!(level.first_visible_column(), 95);
    assert_eq!(level.end_of_visible_columns(), 100);
    assert_eq!(level.visible_tiles().len(), 25);
    level.offset_x = px(64 * 100);
    assert_eq!(level.visible_tiles().len(), 0);
    level.offset_x = px(64 * 4000);
    assert_eq!(level.first_visible_column(), 100);
    assert_eq!(level.visible_tiles().len(), 0);
}

#[test]
fn grid_is_laid_out_row_by_row() {
    let map = Level::convert_data_to_map(&vec![1, 2, 3, 4, 5, 6, 7, 8, 9, 10]);
    assert_eq!(map, vec![vec![1, 2], vec![3, 4], vec![5, 6], vec![7, 8], vec![9, 10]]);
    let map = Level::convert_data_to_map(&vec![4, 3, 2, 1, 0]);
    assert_eq!(map, vec![vec![4], vec![3], vec![2], vec![1], vec![0]]);
    let library = library();
    let mut background = vec![-1; 10];
    background[3] = 7;
    let mut foreground = vec![-1; 10];
    foreground[0] = 69;
    let level = Level::new(canvas(), library.get_image("level"), background, foreground);
    assert_eq!(level.tile(1, 1), 7);
    assert_eq!(level.tile(0, 0), -1);
    assert_eq!(level.npc_marker(0, 0), 69);
    assert_eq!(level.tile_position((1, 1)), Point::new(px(64), px(64)));
}

#[test]
fn scroll_speed_follows_the_sleigh() {
    let library = library();
    let mut level = empty_level(&library, 100);
    assert_eq!(level.canvas_size(), canvas());
    level.scroll(px(300), px(600), 1_000);
    assert_eq!(level.scroll_speed_x(), MENU_SCROLL_SPEED_X);
    assert_eq!(level.offset_x(), 40_000 * 1_000);
    level.start_game(2_000);
    assert_eq!(level.offset_x(), 0);
    assert_eq!(level.game_mode, GameMode::Running);
    level.scroll(0, px(600), 1_500);
    assert_eq!(level.scroll_speed_x(), MIN_SCROLL_SPEED_X);
    assert_eq!(level.offset_x(), 0);
    level.scroll(px(600), px(600), 2_000);
    assert_eq!(level.scroll_speed_x(), MAX_SCROLL_SPEED_X);
    assert_eq!(level.offset_x(), 160_000 * 500);
    level.scroll(px(150), px(600), 2_100);
    assert_eq!(level.scroll_speed_x(), 70_000);
    assert_eq!(level.offset_x(), 160_000 * 500 + 70_000 * 100);
    level.pause_scrolling(5_000);
    level.scroll(px(150), px(600), 4_999);
    assert_eq!(level.offset_x(), 160_000 * 500 + 70_000 * 100);
    level.scroll(px(150), px(600), 5_000);
    assert_eq!(level.offset_x(), 160_000 * 500 + 70_000 * 101);
}

#[test]
fn landscape_scrolls_at_a_tenth_and_repeats() {
    let library = library();
    let mut level = empty_level(&library, 100);
    level.scroll(0, px(600), 0);
    let mut landscape = Landscape::new(library.get_image("landscape"));
    assert_eq!(landscape.size, Point::new(px(640), px(480)));
    landscape.do_logic(&level, 10_000);
    assert_eq!(landscape.offset_x, 4_000 * 10_000);
    assert_eq!(landscape.draw(), ((40, 600, 0), (0, 40, 600)));
    landscape.do_logic(&level, 10_000 + 150_000);
    assert_eq!(landscape.offset_x, 4_000 * 160_000 % px(640));
    landscape.pause_scrolling(400_000);
    let before = landscape.offset_x;
    landscape.do_logic(&level, 399_999);
    assert_eq!(landscape.offset_x, before);
    landscape.start_game(500_000);
    assert_eq!(landscape.offset_x, 0);
    assert_eq!(landscape.scrolling_resume_instant, 500_000);
    landscape.start_menu();
    assert_eq!(landscape.scrolling_resume_instant, 0);
}

fn tiles_of(level: &Level) -> Vec<(usize, usize)> {
    level.npcs.iter().map(|npc| npc.tile()).collect()
}

#[test]
fn characters_come_to_life_on_visible_tiles_and_go_with_them() {
    let library = library();
    let mut foreground = vec![-1; 500];
    foreground[2] = 69;
    foreground[100 + 5] = 74;
    foreground[200 + 11] = 73;
    foreground[300 + 12] = 68;
    foreground[400 + 40] = 29;
    let mut level = Level::new(canvas(), library.get_image("level"), vec![-1; 500], foreground);
    assert_eq!(level.number_of_visible_map_columns, 11);
    level.add_visible_npcs(&library, 0);
    assert_eq!(tiles_of(&level), vec![(11, 2), (2, 0), (5, 1)]);
    assert!(matches!(level.npcs[0], Npc::Balloon(_)));
    assert!(matches!(level.npcs[1], Npc::Angel(_)));
    assert!(matches!(level.npcs[2], Npc::Cloud(_)));
    assert!(level.has_npc((2, 0)));
    assert!(!level.has_npc((12, 3)));
    level.add_visible_npcs(&library, 10);
    assert_eq!(tiles_of(&level), vec![(11, 2), (2, 0), (5, 1)]);
    level.offset_x = px(64 * 3);
    level.remove_invisible_npcs();
    assert_eq!(tiles_of(&level), vec![(11, 2), (5, 1)]);
    level.add_visible_npcs(&library, 20);
    assert_eq!(tiles_of(&level), vec![(11, 2), (12, 3), (5, 1)]);
    assert!(matches!(level.npcs[1], Npc::Goblin(_)));
    level.offset_x = px(64 * 30);
    level.remove_invisible_npcs();
    level.add_visible_npcs(&library, 30);
    assert_eq!(tiles_of(&level), vec![(40, 4)]);
    assert!(matches!(level.npcs[0], Npc::Snowman(_)));
}

#[test]
fn no_tile_has_two_characters_after_many_ticks() {
    let library = library();
    let mut foreground = vec![-1; 500];
    for column in 0..100 {
        foreground[column] = 69 + (column as i64 % 8);
        foreground[300 + column] = if column % 2 == 0 { 68 } else { 29 };
    }
    let mut level = Level::new(canvas(), library.get_image("level"), vec![-1; 500], foreground);
    let mut sleigh = Sleigh::new(&library, canvas(), 0);
    let mut score = Score::new(1_000_000);
    let mut landscape = Landscape::new(library.get_image("landscape"));
    level.start_game(0);
    sleigh.start_game(0);
    score.start_game(0);
    let mut now = 0;
    for _ in 0..200 {
        now += 250;
        level.do_logic(&library, &mut score, &mut landscape, &mut sleigh, now);
        sleigh.do_logic(&mut score, &level, Point::zero(), now);
        let tiles = tiles_of(&level);
        for i in 0..tiles.len() {
            assert!(level.is_tile_visible(tiles[i]));
            for j in 0..i {
                assert_ne!(tiles[i], tiles[j]);
            }
        }
        for pair in level.npcs.windows(2) {
            assert!(pair[0].z_order() <= pair[1].z_order());
        }
        for tile in level.visible_tiles() {
            assert_eq!(level.npc_marker(tile.0, tile.1) >= 0, level.has_npc(tile));
        }
        assert!(score.gift_points() >= 0 && score.damage_points() >= 0);
    }
    assert!(level.offset_x() > 0);
    level.start_menu();
    assert!(level.npcs.is_empty());
    assert_eq!(level.offset_x(), 0);
}

#[test]
fn terrain_is_drawn_where_the_marker_is_not_negative() {
    let library = library();
    let mut background = vec![-1; 500];
    background[1] = 4;
    background[100 + 30] = 9;
    background[400] = 0;
    let mut level = Level::new(canvas(), library.get_image("level"), background, vec![-1; 500]);
    level.offset_x = px(10);
    let sprites = level.draw_background();
    assert_eq!(sprites.len(), 2);
    assert_eq!(sprites[0].position, Point::new(px(54), 0));
    assert_eq!(sprites[0].frame, 4_000);
    assert_eq!(sprites[1].position, Point::new(px(-10), px(256)));
    assert_eq!(sprites[1].frame, 0);
    assert_eq!(level.draw().len(), 2);
}
