use santa_racer::asset::{number_of_frames_of, AssetLibrary, Image, Point};
use santa_racer::level::Level;
use santa_racer::asset::{Sound, SoundName};
use santa_racer::npc::{
    new_npc, npc_kind, Angel, Balloon, BalloonType, Cloud, Finish, Goblin, Npc, NpcBase, NpcKind,
    Snowman,
};
use santa_racer::sleigh::Sleigh;
use santa_racer::ui::Score;

#[allow(dead_code)]
fn px(pixels: i64) -> i64 {
    pixels * 1_000_000
}

#[allow(dead_code)]
fn opaque(name: &str, frame_width: u32, frame_height: u32, frames: (i32, i32)) -> Image {
    let width = frame_width * frames.0 as u32;
    let height = frame_height * frames.1 as u32;
    Image::new(name.to_string(), width, height, frames, vec![true; (width * height) as usize])
}

#[allow(dead_code)]
fn library() -> AssetLibrary {
    let mut library = AssetLibrary::new();
    let images: [(&str, u32, u32); 30] = [
        ("sleigh", 8, 8),
        ("reindeer", 8, 8),
        ("electrocutedSleigh", 12, 12),
        ("electrocutedReindeer", 12, 12),
        ("shield", 16, 16),
        ("star", 2, 2),
        ("smallStar", 1, 1),
        ("drunkStar", 2, 2),
        ("smallDrunkStar", 1, 1),
        ("gift1", 4, 4),
        ("gift2", 4, 4),
        ("gift3", 4, 4),
        ("bigStar", 6, 6),
        ("points10", 5, 3),
        ("points15", 5, 3),
        ("points20", 5, 3),
        ("angel", 8, 8),
        ("cashBalloon", 8, 8),
        ("giftBalloon", 8, 8),
        ("heartBalloon", 8, 8),
        ("shieldBalloon", 8, 8),
        ("wineBalloon", 8, 8),
        ("cloud", 8, 8),
        ("finish", 8, 8),
        ("goblin", 8, 8),
        ("goblinSnowball", 2, 2),
        ("snowman", 8, 8),
        ("level", 64, 64),
        ("font", 4, 6),
        ("landscape", 640, 480),
    ];
    for (name, width, height) in images.iter() {
        let frames = number_of_frames_of(name);
        library.add_image(name.to_string(), opaque(name, *width, *height, frames));
    }
    library.add_data("chimneys".to_string(), vec![10, 5, 20, 3, 0, 0, 64, 7]);
    let mut widths: Vec<i64> = Vec::new();
    for i in 0..46 {
        widths.push(3 + (i % 3));
    }
    library.add_data("fontCharacterWidths".to_string(), widths);
    library
}

#[allow(dead_code)]
fn canvas() -> Point {
    Point::new(px(640), px(480))
}

#[allow(dead_code)]
fn empty_level<'a>(library: &'a AssetLibrary, columns: usize) -> Level<'a> {
    Level::new(canvas(), library.get_image("level"), vec![-1; 5 * columns], vec![-1; 5 * columns])
}


fn sleigh_at<'a>(library: &'a AssetLibrary, x: i64, y: i64) -> Sleigh<'a> {
    let mut sleigh = Sleigh::new(library, canvas(), 0);
    sleigh.start_game(0);
    sleigh.counting_down = false;
    sleigh.position = Point::new(px(x), px(y));
    sleigh
}

#[test]
fn character_stands_in_the_middle_of_its_tile() {
    let library = library();
    let base = NpcBase::new(library.get_image("angel"), canvas(), Point::new(px(64), px(64)), (2, 1), 13, 9);
    assert_eq!(base.position, Point::new(px(156), px(92)));
    assert_eq!(base.size, Point::new(px(8), px(8)));
    assert_eq!(base.velocity, Point::zero());
    assert_eq!(base.acceleration, Point::zero());
    assert_eq!(base.frame, 0);
    assert_eq!(base.last_update_instant, 9);
    assert_eq!(base.tile, (2, 1));
    let odd = NpcBase::new(library.get_image("goblinSnowball"), canvas(), Point::new(px(5), px(7)), (0, 3), 0, 0);
    assert_eq!(odd.position, Point::new(1_500_000, 23_500_000));
}

#[test]
fn character_moves_by_velocity_first_and_position_second() {
    let library = library();
    let mut base = NpcBase::new(library.get_image("angel"), canvas(), Point::new(px(64), px(64)), (2, 1), 13, 0);
    base.velocity = Point::new(10_000, -5_000);
    base.acceleration = Point::new(0, 5);
    base.do_logic(2_000);
    assert_eq!(base.velocity, Point::new(10_000, 5_000));
    assert_eq!(base.position, Point::new(px(176), px(102)));
    assert_eq!(base.frame, 26_000);
    assert_eq!(base.last_update_instant, 2_000);
    base.do_logic(1_000);
    assert_eq!(base.position, Point::new(px(176), px(102)));
    assert_eq!(base.last_update_instant, 1_000);
    let sprite = base.draw(px(76));
    assert_eq!(sprite.position, Point::new(px(100), px(102)));
    assert_eq!(sprite.frame, 26_000);
}

#[test]
fn marker_decides_the_kind_of_character() {
    assert_eq!(npc_kind(69), NpcKind::Angel);
    assert_eq!(npc_kind(70), NpcKind::Balloon(BalloonType::Cash));
    assert_eq!(npc_kind(71), NpcKind::Balloon(BalloonType::Heart));
    assert_eq!(npc_kind(72), NpcKind::Balloon(BalloonType::Wine));
    assert_eq!(npc_kind(73), NpcKind::Balloon(BalloonType::Gift));
    assert_eq!(npc_kind(75), NpcKind::Balloon(BalloonType::Shield));
    assert_eq!(npc_kind(74), NpcKind::Cloud);
    assert_eq!(npc_kind(76), NpcKind::Finish);
    assert_eq!(npc_kind(68), NpcKind::Goblin);
    assert_eq!(npc_kind(29), NpcKind::Snowman);
    assert_eq!(npc_kind(0), NpcKind::Angel);
    assert_eq!(npc_kind(77), NpcKind::Angel);
    assert_eq!(npc_kind(i64::MAX), NpcKind::Angel);

    let library = library();
    let level = empty_level(&library, 100);
    let names: [(i64, &str, i32, bool); 11] = [
        (69, "angel", 0, false),
        (70, "cashBalloon", -1, false),
        (71, "heartBalloon", -1, false),
        (72, "wineBalloon", -1, false),
        (73, "giftBalloon", -1, false),
        (75, "shieldBalloon", -1, false),
        (74, "cloud", 1, false),
        (76, "finish", 0, true),
        (68, "goblin", 0, false),
        (29, "snowman", 0, false),
        (5, "angel", 0, false),
    ];
    for (marker, name, z_order, in_menu) in names.iter() {
        let npc = new_npc(&library, &level, (7, 3), *marker, 11);
        assert_eq!(npc.tile(), (7, 3));
        assert_eq!(npc.z_order(), *z_order);
        assert_eq!(npc.check_collision_with_sleigh_in_menu_mode(), *in_menu);
        let sprites = npc.draw(0);
        assert_eq!(sprites.len(), 1);
        assert_eq!(sprites[0].image.name(), *name);
        assert_eq!(sprites[0].position, Point::new(px(7 * 64 + 28), px(3 * 64 + 28)));
    }
    match new_npc(&library, &level, (7, 3), 29, 11) {
        Npc::Snowman(snowman) => {
            assert_eq!(snowman.stars.len(), 20);
            assert_eq!(snowman.stars[0].min_offset(), Point::new(px(-12), px(-32)));
            assert_eq!(snowman.stars[19].max_offset(), Point::new(px(-7), px(-27)));
            assert!(!snowman.launched);
        },
        _ => panic!("a snowman was asked for"),
    }
}

#[test]
fn angel_harms_a_sleigh_that_touches_it_once() {
    let library = library();
    let level = empty_level(&library, 100);
    let mut angel = Angel::new(&library, &level, (2, 1), 0);
    let mut score = Score::new(1000);
    let mut sleigh = sleigh_at(&library, 150, 90);
    angel.do_logic(1_000);
    assert_eq!(angel.npc_base.frame, 13_000);
    assert_eq!(angel.tile(), (2, 1));
    assert_eq!(angel.z_order(), 0);
    assert!(!angel.check_collision_with_sleigh_in_menu_mode());
    let sound = angel.check_collision_with_sleigh(&mut score, 0, &mut sleigh, 1_000);
    assert_eq!(
        sound,
        Some(Sound::play_with_position(SoundName::SleighCollidedWithNpc, canvas(), px(150)))
    );
    assert_eq!(score.damage_points(), 20);
    assert!(sleigh.invincible());
    assert_eq!(sleigh.invincible_reset_instant, 4_000);
    assert!(!sleigh.immobile());
    let sound = angel.check_collision_with_sleigh(&mut score, 0, &mut sleigh, 1_016);
    assert!(sound.is_none());
    assert_eq!(score.damage_points(), 20);
}

#[test]
fn angel_spares_a_sleigh_that_is_shielded_or_away() {
    let library = library();
    let level = empty_level(&library, 100);
    let mut angel = Angel::new(&library, &level, (2, 1), 0);
    let mut score = Score::new(1000);
    let mut sleigh = sleigh_at(&library, 150, 90);
    sleigh.start_shield(0);
    assert!(angel.check_collision_with_sleigh(&mut score, 0, &mut sleigh, 0).is_none());
    sleigh.shield = false;
    assert!(angel.check_collision_with_sleigh(&mut score, px(64), &mut sleigh, 0).is_none());
    assert!(angel.npc_base.collides_with_sleigh(0, &sleigh));
    assert!(!angel.npc_base.collides_with_sleigh(px(64), &sleigh));
    sleigh.position = Point::new(px(300), px(90));
    assert!(angel.check_collision_with_sleigh(&mut score, 0, &mut sleigh, 0).is_none());
    assert_eq!(score.damage_points(), 0);
    assert!(!sleigh.invincible());
}

#[test]
fn cloud_harms_and_electrocutes() {
    let library = library();
    let level = empty_level(&library, 100);
    let mut cloud = Cloud::new(&library, &level, (2, 1), 0);
    let mut score = Score::new(1000);
    let mut sleigh = sleigh_at(&library, 150, 90);
    cloud.do_logic(500);
    assert_eq!(cloud.npc_base.frame, 0);
    assert_eq!(cloud.z_order(), 1);
    let sound = cloud.check_collision_with_sleigh(&mut score, 0, &mut sleigh, 500);
    assert_eq!(sound.unwrap().name, SoundName::SleighCollidedWithCloud);
    assert_eq!(score.damage_points(), 20);
    assert!(sleigh.invincible());
    assert!(sleigh.electrocuted);
    assert_eq!(sleigh.electrocuted_reset_instant, 1_500);
    assert_eq!(sleigh.invincible_reset_instant, 3_500);
    assert!(cloud.check_collision_with_sleigh(&mut score, 0, &mut sleigh, 600).is_none());
    assert_eq!(score.damage_points(), 20);
}

#[test]
fn finish_is_won_when_the_front_of_the_sleigh_has_reached_it() {
    let library = library();
    let level = empty_level(&library, 100);
    let mut finish = Finish::new(&library, &level, (2, 1), 0);
    finish.do_logic(10);
    assert!(finish.check_collision_with_sleigh_in_menu_mode());
    let mut score = Score::new(1000);
    let mut sleigh = sleigh_at(&library, 133, 300);
    finish.check_collision_with_sleigh(&mut score, 0, &mut sleigh);
    assert!(!score.won());
    finish.check_collision_with_sleigh(&mut score, px(1), &mut sleigh);
    assert!(score.won());
    let mut score = Score::new(1000);
    sleigh.position.x = px(134);
    finish.check_collision_with_sleigh(&mut score, 0, &mut sleigh);
    assert!(score.won());
}

#[test]
fn balloon_rises_when_the_canvas_reaches_its_tile() {
    let library = library();
    let level = empty_level(&library, 100);
    let mut balloon = Balloon::new(&library, &level, (11, 2), BalloonType::Cash, 0);
    assert_eq!(balloon.npc_base.position, Point::new(px(732), px(156)));
    balloon.do_logic(px(63), 1_000);
    assert_eq!(balloon.npc_base.velocity, Point::zero());
    assert_eq!(balloon.npc_base.position, Point::new(px(732), px(156)));
    balloon.do_logic(px(64), 2_000);
    assert_eq!(balloon.npc_base.velocity, Point::new(0, -50_000));
    assert_eq!(balloon.npc_base.position, Point::new(px(732), px(106)));
    assert_eq!(balloon.z_order(), -1);
    assert_eq!(balloon.tile(), (11, 2));
}

#[test]
fn frame_of_a_balloon_runs_to_and_fro() {
    let library = library();
    let level = empty_level(&library, 100);
    let mut balloon = Balloon::new(&library, &level, (11, 2), BalloonType::Gift, 0);
    balloon.do_logic(0, 500);
    assert_eq!((balloon.npc_base.frame, balloon.frame_increasing), (5_000, true));
    balloon.do_logic(0, 1_000);
    assert_eq!((balloon.npc_base.frame, balloon.frame_increasing), (6_000, false));
    balloon.do_logic(0, 2_000);
    assert_eq!((balloon.npc_base.frame, balloon.frame_increasing), (4_000, true));
    balloon.do_logic(0, 2_400);
    assert_eq!((balloon.npc_base.frame, balloon.frame_increasing), (8_000, true));
    balloon.do_logic(0, 6_400);
    assert_eq!((balloon.npc_base.frame, balloon.frame_increasing), (0, false));
    balloon.do_logic(0, 6_400 + 2_500);
    assert_eq!((balloon.npc_base.frame, balloon.frame_increasing), (7_000, false));
    let mut wine = Balloon::new(&library, &level, (11, 2), BalloonType::Wine, 0);
    wine.do_logic(0, 800);
    assert_eq!((wine.npc_base.frame, wine.frame_increasing), (6_000, false));
}

fn take_balloon(balloon_type: BalloonType) -> (Score, bool, bool, bool, SoundName) {
    let library = library();
    let level = empty_level(&library, 100);
    let mut balloon = Balloon::new(&library, &level, (2, 1), balloon_type, 0);
    let mut score = Score::new(1000);
    score.add_damage_points(70);
    let mut sleigh = sleigh_at(&library, 150, 90);
    sleigh.start_invincible(0);
    let sound = balloon.check_collision_with_sleigh(&mut score, 0, &mut sleigh, 100).unwrap();
    assert!(!balloon.visible);
    assert_eq!(sound, Sound::play_with_position(sound.name, canvas(), px(150)));
    assert!(balloon.check_collision_with_sleigh(&mut score, 0, &mut sleigh, 200).is_none());
    assert!(Npc::Balloon(balloon).draw(0).is_empty());
    if sleigh.bonus() {
        assert_eq!(sleigh.bonus_reset_instant, 15_100);
    }
    if sleigh.shield() {
        assert_eq!(sleigh.shield_reset_instant, 15_100);
    }
    if sleigh.drunk {
        assert_eq!(sleigh.drunk_reset_instant, 15_100);
    }
    (score, sleigh.bonus(), sleigh.shield(), sleigh.drunk, sound.name)
}

#[test]
fn balloon_gives_what_it_carries() {
    let (score, bonus, shield, drunk, sound) = take_balloon(BalloonType::Cash);
    assert_eq!((score.damage_points(), score.gift_points()), (20, 0));
    assert_eq!((bonus, shield, drunk, sound), (false, false, false, SoundName::CashBalloon));
    let (score, bonus, shield, drunk, sound) = take_balloon(BalloonType::Heart);
    assert_eq!((score.damage_points(), score.gift_points()), (70, 20));
    assert_eq!((bonus, shield, drunk, sound), (false, false, false, SoundName::GiftCollidedWithChimney));
    let (score, bonus, shield, drunk, sound) = take_balloon(BalloonType::Gift);
    assert_eq!((score.damage_points(), score.gift_points()), (70, 0));
    assert_eq!((bonus, shield, drunk, sound), (true, false, false, SoundName::GiftBalloon));
    let (_, bonus, shield, drunk, sound) = take_balloon(BalloonType::Shield);
    assert_eq!((bonus, shield, drunk, sound), (false, true, false, SoundName::ShieldBalloon));
    let (_, bonus, shield, drunk, sound) = take_balloon(BalloonType::Wine);
    assert_eq!((bonus, shield, drunk, sound), (false, false, true, SoundName::WineBalloon));
    assert_eq!(BalloonType::Heart.sound(), SoundName::GiftCollidedWithChimney);
}

#[test]
fn cash_balloon_cannot_make_the_damage_negative() {
    let library = library();
    let level = empty_level(&library, 100);
    let mut balloon = Balloon::new(&library, &level, (2, 1), BalloonType::Cash, 0);
    let mut score = Score::new(1000);
    score.add_damage_points(30);
    let mut sleigh = sleigh_at(&library, 150, 90);
    balloon.check_collision_with_sleigh(&mut score, 0, &mut sleigh, 100);
    assert_eq!(score.damage_points(), 0);
}

#[test]
fn goblin_throws_a_snowball_in_every_round() {
    let library = library();
    let level = empty_level(&library, 100);
    let mut goblin = Goblin::new(&library, &level, (9, 3), 0);
    assert_eq!(goblin.next_throw_snowball_instant, 1_083);
    assert_eq!(goblin.throw_snowball_period_duration, 1_583);
    assert!(goblin.do_logic(px(100), 1_082).is_none());
    assert!(goblin.snowballs.is_empty());
    let sound = goblin.do_logic(px(100), 1_083);
    assert_eq!(
        sound,
        Some(Sound::play_with_position(SoundName::GoblinThrowSnowball, canvas(), px(504)))
    );
    assert_eq!(goblin.snowballs.len(), 1);
    assert_eq!(goblin.next_throw_snowball_instant, 2_666);
    assert_eq!(goblin.snowballs[0].position, Point::new(px(604), px(220)));
    assert_eq!(goblin.snowballs[0].size, Point::new(px(2), px(2)));
    assert_eq!(goblin.npc_base.frame, 12 * 1_083);
    assert!(goblin.do_logic(px(100), 2_083).is_none());
    assert_eq!(goblin.snowballs[0].velocity, Point::new(-200_000, -170_000));
    assert_eq!(goblin.snowballs[0].position, Point::new(px(404), px(50)));
    assert!(goblin.do_logic(px(100), 1_083 + 3 * 1_583 + 5).is_some());
    assert_eq!(goblin.snowballs.len(), 2);
    assert_eq!(goblin.next_throw_snowball_instant, 1_083 + 4 * 1_583);
    assert_eq!(goblin.snowballs[1].position, goblin.npc_base.position);
    let sprites = goblin.draw(px(100));
    assert_eq!(sprites.len(), 3);
    assert_eq!(sprites[0].image.name(), "goblin");
    assert_eq!(sprites[1].image.name(), "goblinSnowball");
    assert_eq!(sprites[2].position, Point::new(px(504), px(220)));
}

#[test]
fn goblin_and_its_snowballs_harm_the_sleigh_once() {
    let library = library();
    let level = empty_level(&library, 100);
    let mut goblin = Goblin::new(&library, &level, (9, 3), 0);
    goblin.do_logic(0, 1_083);
    goblin.do_logic(0, 2_083);
    goblin.do_logic(0, 2_666);
    assert_eq!(goblin.snowballs.len(), 2);
    assert_eq!(goblin.snowballs[0].position.x, px(604) - 200_000 * 1_583);
    let mut score = Score::new(1000);
    let mut far = sleigh_at(&library, 10, 400);
    assert!(goblin.check_collision_with_sleigh(&mut score, 0, &mut far, 3_000).is_none());
    let mut at_goblin = sleigh_at(&library, 600, 216);
    assert!(goblin.check_collision_with_sleigh(&mut score, 0, &mut at_goblin, 3_000).is_some());
    assert_eq!(score.damage_points(), 20);
    assert!(at_goblin.invincible());
    let snowball = goblin.snowballs[0].position;
    let mut at_snowball = sleigh_at(&library, snowball.x / 1_000_000, snowball.y / 1_000_000);
    let sound = goblin.check_collision_with_sleigh(&mut score, 0, &mut at_snowball, 3_000);
    assert_eq!(sound.unwrap().name, SoundName::SleighCollidedWithNpc);
    assert_eq!(score.damage_points(), 40);
    assert!(goblin.check_collision_with_sleigh(&mut score, 0, &mut at_snowball, 3_001).is_none());
    at_snowball.invincible = false;
    at_snowball.shield = true;
    assert!(goblin.check_collision_with_sleigh(&mut score, 0, &mut at_snowball, 3_002).is_none());
    assert_eq!(score.damage_points(), 40);
}

#[test]
fn snowman_takes_off_when_it_would_meet_the_sleigh() {
    let library = library();
    let level = empty_level(&library, 100);
    let sleigh = sleigh_at(&library, 50, 100);
    let mut snowman = Snowman::new(&library, &level, (5, 4), 0);
    assert_eq!(snowman.npc_base.position, Point::new(px(348), px(284)));
    assert!(!snowman.is_time_to_launch(px(117), 40_000, &sleigh));
    assert!(snowman.is_time_to_launch(px(118), 40_000, &sleigh));
    assert!(!snowman.is_time_to_launch(0, 40_000, &sleigh));
    assert!(snowman.is_time_to_launch(0, 160_000, &sleigh));
    assert!(snowman.do_logic(px(117), 40_000, &sleigh, 1_000).is_none());
    assert!(!snowman.launched);
    assert_eq!(snowman.npc_base.position, Point::new(px(348), px(284)));
    assert_eq!(snowman.draw(0).len(), 1);
    let sound = snowman.do_logic(px(118), 40_000, &sleigh, 2_000);
    assert_eq!(
        sound,
        Some(Sound::play_with_position(SoundName::SnowmanLaunch, canvas(), px(230)))
    );
    assert!(snowman.launched);
    assert_eq!(snowman.npc_base.velocity, Point::new(-100_000, -150_000));
    assert_eq!(snowman.npc_base.position, Point::new(px(248), px(134)));
    assert_eq!(snowman.npc_base.frame_speed, 8);
    assert_eq!(snowman.npc_base.frame, 7_000);
    assert!(snowman.stars.iter().all(|star| star.fresh));
    assert!(snowman.do_logic(px(118), 40_000, &sleigh, 2_100).is_none());
    assert_eq!(snowman.npc_base.position, Point::new(px(238), px(119)));
    assert_eq!(snowman.npc_base.frame, 7_000);
    assert!(snowman.stars.iter().all(|star| !star.fresh));
    let sprites = snowman.draw(0);
    assert_eq!(sprites.last().unwrap().image.name(), "snowman");
    assert_eq!(snowman.tile(), (5, 4));
}

#[test]
fn snowman_harms_like_an_angel() {
    let library = library();
    let level = empty_level(&library, 100);
    let mut snowman = Snowman::new(&library, &level, (2, 1), 0);
    let mut score = Score::new(1000);
    let mut sleigh = sleigh_at(&library, 150, 90);
    let sound = snowman.check_collision_with_sleigh(&mut score, 0, &mut sleigh, 0);
    assert_eq!(sound.unwrap().name, SoundName::SleighCollidedWithNpc);
    assert_eq!(score.damage_points(), 20);
    assert!(sleigh.invincible());
}

#[test]
fn only_the_finish_is_tested_outside_a_run() {
    let library = library();
    let mut foreground = vec![-1; 500];
    foreground[100 + 2] = 69;
    foreground[100 + 3] = 76;
    let mut level = Level::new(canvas(), library.get_image("level"), vec![-1; 500], foreground);
    level.add_visible_npcs(&library, 0);
    let mut score = Score::new(1000);
    let mut sleigh = sleigh_at(&library, 150, 90);
    sleigh.position.x = px(202);
    assert!(level.check_collisions(&mut score, &mut sleigh, 0).is_empty());
    assert!(score.won());
    assert_eq!(score.damage_points(), 0);
    sleigh.position.x = px(150);
    assert!(level.check_collisions(&mut score, &mut sleigh, 0).is_empty());
    assert_eq!(score.damage_points(), 0);
    level.start_game(0);
    level.add_visible_npcs(&library, 0);
    let sounds = level.check_collisions(&mut score, &mut sleigh, 0);
    assert_eq!(sounds.len(), 1);
    assert_eq!(score.damage_points(), 20);
    let sounds = level.tick_npcs(&sleigh, 1_000);
    assert!(sounds.is_empty());
    assert_eq!(level.draw().len(), 2);
}
