use santa_racer::data::{load_data, parse_number};
use santa_racer::asset::{
    number_of_frames_of, AssetLibrary, CloneAsI32Vector, Image, Point, SingleTypeAssetLibrary,
    Sound, SoundName,
};

#[test]
fn asset_is_found_under_its_name() {
    let mut library: SingleTypeAssetLibrary<i32> = SingleTypeAssetLibrary::new();
    assert!(library.get_asset("a").is_none());
    assert!(!library.has_asset("a"));
    library.insert("a".to_string(), 1);
    library.insert("b".to_string(), 2);
    assert_eq!(library.get_asset("a"), Some(&1));
    assert_eq!(library.get_asset("b"), Some(&2));
    assert!(library.get_asset("c").is_none());
}

#[test]
fn later_asset_of_the_same_name_stays() {
    let mut library: SingleTypeAssetLibrary<i32> = SingleTypeAssetLibrary::new();
    library.insert("a".to_string(), 1);
    library.insert("a".to_string(), 3);
    assert_eq!(library.get_asset("a"), Some(&3));
    library.load_assets(vec![
        ("b".to_string(), 4),
        ("a".to_string(), 5),
        ("b".to_string(), 6),
    ]);
    assert_eq!(library.get_asset("a"), Some(&5));
    assert_eq!(library.get_asset("b"), Some(&6));
}

#[test]
fn library_holds_data_and_images() {
    let mut library = AssetLibrary::new();
    assert!(!library.contains_image("x"));
    assert!(!library.contains_data("x"));
    library.add_data("x".to_string(), vec![1, 2, 3]);
    library.add_image("x".to_string(), Image::new("x".to_string(), 2, 1, (2, 1), vec![true, false]));
    assert!(library.contains_image("x"));
    assert!(library.contains_data("x"));
    assert_eq!(library.get_data("x"), &vec![1, 2, 3]);
    assert_eq!(library.get_image("x").width(), 1);
    assert_eq!(library.get_image("x").name(), "x");
    assert_eq!(library.get_image("x").mask(), &vec![true, false]);
}

#[test]
fn frame_grids_of_the_images() {
    assert_eq!(number_of_frames_of("angel"), (13, 1));
    assert_eq!(number_of_frames_of("bigStar"), (10, 1));
    assert_eq!(number_of_frames_of("cashBalloon"), (8, 1));
    assert_eq!(number_of_frames_of("drunkStar"), (17, 1));
    assert_eq!(number_of_frames_of("font"), (45, 1));
    assert_eq!(number_of_frames_of("gift2"), (15, 1));
    assert_eq!(number_of_frames_of("goblin"), (19, 1));
    assert_eq!(number_of_frames_of("level"), (1, 81));
    assert_eq!(number_of_frames_of("reindeer"), (14, 1));
    assert_eq!(number_of_frames_of("sleigh"), (14, 1));
    assert_eq!(number_of_frames_of("wineBalloon"), (7, 1));
    assert_eq!(number_of_frames_of("background"), (1, 1));
    assert_eq!(number_of_frames_of(""), (1, 1));
}

#[test]
fn numbers_are_brought_into_the_range_of_i32() {
    let data: Vec<i64> = vec![0, -1, 7, i64::MAX, i64::MIN, 2147483647, -2147483648];
    assert_eq!(
        data.clone_as_i32(),
        vec![0, -1, 7, i32::MAX, i32::MIN, i32::MAX, i32::MIN]
    );
}

#[test]
fn points_are_made_from_pixels() {
    assert_eq!(Point::zero(), Point::new(0, 0));
    assert_eq!(Point::from_u32_tuple((640, 480)), Point::new(640_000_000, 480_000_000));
}

#[test]
fn sound_in_the_middle_is_full_on_both_sides() {
    let sound = Sound::play(SoundName::Won);
    assert_eq!(sound, Sound { name: SoundName::Won, volume: 128, left: 255, right: 255 });
}

#[test]
fn sound_follows_the_pan() {
    assert_eq!(Sound::play_with_pan(SoundName::Lost, 0).left, 255);
    assert_eq!(Sound::play_with_pan(SoundName::Lost, 0).right, 0);
    assert_eq!(Sound::play_with_pan(SoundName::Lost, 1000).left, 0);
    assert_eq!(Sound::play_with_pan(SoundName::Lost, 1000).right, 255);
    assert_eq!(Sound::play_with_pan(SoundName::Lost, 250).left, 255);
    assert_eq!(Sound::play_with_pan(SoundName::Lost, 250).right, 127);
    assert_eq!(Sound::play_with_pan(SoundName::Lost, -300).right, 0);
    assert_eq!(Sound::play_with_pan(SoundName::Lost, 1700).left, 0);
    assert_eq!(Sound::play_with_volume(SoundName::Lost, 500).volume, 64);
    assert_eq!(Sound::play_with_volume_and_pan(SoundName::Lost, 250, 100).volume, 32);
    assert_eq!(Sound::play_with_volume_and_pan(SoundName::Lost, 250, 100).right, 51);
}

#[test]
fn sound_is_heard_from_its_place_on_the_canvas() {
    let canvas = Point::new(640_000_000, 480_000_000);
    let at_quarter = Sound::play_with_position(SoundName::CashBalloon, canvas, 160_000_000);
    assert_eq!(at_quarter, Sound::play_with_pan(SoundName::CashBalloon, 250));
    let in_level = Sound::play_with_level_position(
        SoundName::CashBalloon,
        canvas,
        1_000_000_000,
        1_160_000_000,
    );
    assert_eq!(in_level, at_quarter);
}

fn numbers(text: &str) -> Option<Vec<i64>> {
    load_data(&text.as_bytes().to_vec())
}

#[test]
fn data_file_holds_numbers_between_white_space() {
    assert_eq!(numbers("1 2\n-3\t+4 5.75 6.\r\n007"), Some(vec![1, 2, -3, 4, 5, 6, 7]));
    assert_eq!(numbers(""), Some(vec![]));
    assert_eq!(numbers(" \n\t "), Some(vec![]));
    assert_eq!(numbers("-1"), Some(vec![-1]));
    assert_eq!(numbers("69 -1 -1 29\n"), Some(vec![69, -1, -1, 29]));
    assert_eq!(numbers("-0.99 0.99"), Some(vec![0, 0]));
}

#[test]
fn word_that_is_no_number_spoils_the_file() {
    for text in ["abc", "1 2 x", "1.2.3", "-", "+", ".5", "1e3", "12a", "--1", "1,5", "1 \u{00a0} 2"] {
        assert_eq!(numbers(text), None);
    }
    assert_eq!(parse_number(&b"".to_vec()), None);
    assert_eq!(parse_number(&b"1 2".to_vec()), None);
    assert_eq!(parse_number(&b"42".to_vec()), Some(42));
}

#[test]
fn number_beyond_the_range_gives_the_end_of_the_range() {
    assert_eq!(numbers("9223372036854775807"), Some(vec![i64::MAX]));
    assert_eq!(numbers("9223372036854775808"), Some(vec![i64::MAX]));
    assert_eq!(numbers("-9223372036854775808"), Some(vec![i64::MIN]));
    assert_eq!(numbers("-9223372036854775809"), Some(vec![i64::MIN]));
    assert_eq!(
        numbers("99999999999999999999999999999999999999999999999999 -99999999999999999999999999999999999999999999999999.5"),
        Some(vec![i64::MAX, i64::MIN])
    );
}

#[test]
fn sounds_are_named_after_their_files() {
    assert_eq!(SoundName::CashBalloon.asset_name(), "cashBalloon");
    assert_eq!(SoundName::GiftBalloon.asset_name(), "giftBalloon");
    assert_eq!(SoundName::GiftCollidedWithChimney.asset_name(), "giftCollidedWithChimney");
    assert_eq!(SoundName::GiftCollidedWithGround.asset_name(), "giftCollidedWithGround");
    assert_eq!(SoundName::GoblinThrowSnowball.asset_name(), "goblinThrowSnowball");
    assert_eq!(SoundName::Lost.asset_name(), "lost");
    assert_eq!(SoundName::ShieldBalloon.asset_name(), "shieldBalloon");
    assert_eq!(SoundName::SleighCollidedWithCloud.asset_name(), "sleighCollidedWithCloud");
    assert_eq!(SoundName::SleighCollidedWithLevel1.asset_name(), "sleighCollidedWithLevel1");
    assert_eq!(SoundName::SleighCollidedWithLevel2.asset_name(), "sleighCollidedWithLevel2");
    assert_eq!(SoundName::SleighCollidedWithNpc.asset_name(), "sleighCollidedWithNpc");
    assert_eq!(SoundName::SnowmanLaunch.asset_name(), "snowmanLaunch");
    assert_eq!(SoundName::WineBalloon.asset_name(), "wineBalloon");
    assert_eq!(SoundName::Won.asset_name(), "won");
}
