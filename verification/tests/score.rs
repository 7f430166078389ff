use santa_racer::game::GameMode;
use santa_racer::ui::{
    Alignment, HighscoreTable, Score, DAMAGE_LIMIT, GAME_DURATION, MAX_NAME_LENGTH,
};

#[test]
fn points_never_fall_below_zero() {
    let mut score = Score::new(100);
    score.add_gift_points(-5);
    assert_eq!(score.gift_points(), 0);
    score.add_damage_points(-50);
    assert_eq!(score.damage_points(), 0);
    score.add_damage_points(20);
    score.add_damage_points(-50);
    assert_eq!(score.damage_points(), 0);
    score.add_damage_points(20);
    score.add_damage_points(15);
    assert_eq!(score.damage_points(), 35);
    score.add_gift_points(10);
    score.add_gift_points(-3);
    score.add_gift_points(-30);
    score.add_gift_points(4);
    assert_eq!(score.gift_points(), 4);
    score.add_gift_points(i64::MIN);
    assert_eq!(score.gift_points(), 0);
}

#[test]
fn points_stop_at_the_greatest_value() {
    let mut score = Score::new(100);
    score.add_gift_points(i64::MAX);
    score.add_gift_points(1);
    assert_eq!(score.gift_points(), i64::MAX);
    assert_eq!(score.score_points(), i64::MAX);
}

#[test]
fn clock_runs_from_its_start_and_stops_at_zero() {
    let mut score = Score::new(100);
    score.do_logic(5_000);
    assert_eq!(score.remaining_duration(), 0);
    assert!(!score.lost_due_to_time());
    score.start_game(8_000);
    assert_eq!(score.remaining_duration(), GAME_DURATION);
    assert_eq!(GAME_DURATION, 450_000);
    score.do_logic(6_000);
    assert_eq!(score.remaining_duration(), 450_000);
    score.do_logic(8_250);
    assert_eq!(score.remaining_duration(), 449_750);
    assert_eq!(score.remaining_minutes_and_seconds(), (7, 29));
    assert!(!score.lost_due_to_time());
    score.do_logic(8_250 + 449_750);
    assert_eq!(score.remaining_duration(), 0);
    assert!(score.lost_due_to_time());
    score.do_logic(u64::MAX);
    assert_eq!(score.remaining_duration(), 0);
}

#[test]
fn clock_runs_in_the_menu_too() {
    let mut score = Score::new(100);
    score.start_game(1_000);
    score.add_gift_points(12);
    score.add_damage_points(5);
    score.do_logic(2_000);
    score.start_menu();
    assert_eq!(score.remaining_duration(), 449_000);
    score.do_logic(2_500);
    assert_eq!(score.remaining_duration(), 448_500);
    assert_eq!(score.last_update_instant, 2_500);
    assert_eq!((score.gift_points(), score.damage_points()), (12, 5));
    score.do_logic(1_000_000);
    assert_eq!(score.remaining_duration(), 0);
    assert!(!score.lost_due_to_time());
    assert_eq!((score.gift_points(), score.damage_points()), (12, 5));
}

#[test]
fn run_is_lost_when_damage_reaches_the_limit() {
    let mut score = Score::new(100);
    score.start_game(0);
    score.add_damage_points(99);
    assert!(!score.lost_due_to_damage());
    score.add_damage_points(1);
    assert!(score.lost_due_to_damage());
    score.start_menu();
    assert!(!score.lost_due_to_damage());
    assert_eq!(score.game_mode, GameMode::Menu);
}

#[test]
fn limits_of_the_game() {
    assert_eq!(DAMAGE_LIMIT, 300);
    assert_eq!(MAX_NAME_LENGTH, 16);
    let mut score = Score::new(DAMAGE_LIMIT);
    score.start_game(0);
    score.add_damage_points(299);
    assert!(!score.lost_due_to_damage());
    score.add_damage_points(1);
    assert!(score.lost_due_to_damage());
}

#[test]
fn reset_clears_points_and_outcome() {
    let mut score = Score::new(100);
    score.start_game(0);
    score.add_gift_points(30);
    score.add_damage_points(45);
    score.set_won(true);
    assert!(score.won());
    assert_eq!(score.score_points(), -15);
    score.reset(77);
    assert_eq!(score.gift_points(), 0);
    assert_eq!(score.damage_points(), 0);
    assert!(!score.won());
    assert_eq!(score.last_update_instant, 77);
    assert_eq!(score.remaining_duration(), 450_000);
}

#[test]
fn alignments_are_numbered_row_by_row() {
    assert_eq!(Alignment::TopLeft.index(), 0);
    assert_eq!(Alignment::TopCenter.index(), 1);
    assert_eq!(Alignment::TopRight.index(), 2);
    assert_eq!(Alignment::CenterLeft.index(), 3);
    assert_eq!(Alignment::Center.index(), 4);
    assert_eq!(Alignment::CenterRight.index(), 5);
    assert_eq!(Alignment::BottomLeft.index(), 6);
    assert_eq!(Alignment::BottomCenter.index(), 7);
    assert_eq!(Alignment::BottomRight.index(), 8);
}

#[test]
fn table_of_high_scores_is_shown_and_dismissed() {
    let mut table = HighscoreTable::new(12);
    assert!(!table.is_visible());
    assert_eq!(table.max_name_length(), 12);
    table.show();
    assert!(table.is_visible());
    table.dismiss();
    assert!(!table.is_visible());
    table.new_highscore(3);
    assert!(table.is_visible());
    assert_eq!(table.new_highscore_index(), 3);
}
