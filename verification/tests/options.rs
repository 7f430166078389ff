use santa_racer::options::{Highscore, Options, StartupAction, NUMBER_OF_HIGHSCORES};

fn arguments(words: &[&str]) -> Vec<String> {
    words.iter().map(|word| word.to_string()).collect()
}

fn points_of(options: &Options) -> Vec<i32> {
    options.highscores().iter().map(|highscore| highscore.points()).collect()
}

#[test]
fn table_is_filled_up_with_empty_lines() {
    let (options, action) = Options::load(vec![Highscore::new("Ann".to_string(), 70)], &vec![]);
    assert_eq!(action, StartupAction::Run);
    assert_eq!(NUMBER_OF_HIGHSCORES, 10);
    assert_eq!(options.number_of_highscores(), 10);
    assert_eq!(options.highscores().len(), 10);
    assert_eq!(options.highscores()[0].name(), "Ann");
    assert_eq!(options.highscores()[0].points(), 70);
    for i in 1..10 {
        assert_eq!(options.highscores()[i].name(), "Leer");
        assert_eq!(options.highscores()[i].points(), 0);
    }
    assert!(!options.fullscreen_enabled());
    assert!(options.sound_enabled());
    assert!(!options.verbose_enabled());
}

#[test]
fn arguments_switch_the_settings() {
    let (options, action) = Options::load(vec![], &arguments(&["-f", "--no-sound", "-v", "x"]));
    assert_eq!(action, StartupAction::Run);
    assert!(options.fullscreen_enabled());
    assert!(!options.sound_enabled());
    assert!(options.verbose_enabled());
    let (options, _) = Options::load(
        vec![],
        &arguments(&["--fullscreen", "--no-fullscreen", "--no-sound", "-s", "--verbose"]),
    );
    assert!(!options.fullscreen_enabled());
    assert!(options.sound_enabled());
    assert!(options.verbose_enabled());
    let (options, _) = Options::load(vec![], &arguments(&["--no-sound", "--sound"]));
    assert!(options.sound_enabled());
}

#[test]
fn first_argument_that_ends_the_program_decides() {
    let (options, action) = Options::load(vec![], &arguments(&["-f", "--help", "-v", "-V"]));
    assert_eq!(action, StartupAction::PrintHelp);
    assert!(options.fullscreen_enabled());
    assert!(!options.verbose_enabled());
    assert_eq!(Options::load(vec![], &arguments(&["-h"])).1, StartupAction::PrintHelp);
    assert_eq!(Options::load(vec![], &arguments(&["-V"])).1, StartupAction::PrintVersion);
    assert_eq!(Options::load(vec![], &arguments(&["--version"])).1, StartupAction::PrintVersion);
    assert_eq!(Options::load(vec![], &arguments(&["-L"])).1, StartupAction::PrintLicense);
    assert_eq!(Options::load(vec![], &arguments(&["--license", "-h"])).1, StartupAction::PrintLicense);
}

#[test]
fn setters_and_getters_agree() {
    let (mut options, _) = Options::load(vec![], &vec![]);
    options.set_fullscreen_enabled(true);
    assert!(options.fullscreen_enabled());
    options.set_fullscreen_enabled(false);
    assert!(!options.fullscreen_enabled());
    options.highscores_mut()[2].set_name("Bob".to_string());
    options.highscores_mut()[2].set_points(12);
    assert_eq!(options.highscores()[2].name(), "Bob");
    assert_eq!(options.highscores()[2].points(), 12);
    let mut highscore = Highscore::new("x".to_string(), 1);
    highscore.set_name("y".to_string());
    highscore.set_points(-4);
    assert_eq!(highscore.name(), "y");
    assert_eq!(highscore.points(), -4);
}

#[test]
fn new_high_score_enters_before_the_first_line_that_is_not_above() {
    let stored = vec![
        Highscore::new("a".to_string(), 90),
        Highscore::new("b".to_string(), 50),
        Highscore::new("c".to_string(), 50),
        Highscore::new("d".to_string(), 10),
    ];
    let (mut options, _) = Options::load(stored, &vec![]);
    assert_eq!(options.new_highscore_index(50), Some(1));
    assert_eq!(options.new_highscore_index(100), Some(0));
    assert_eq!(options.new_highscore_index(-1), None);
    assert_eq!(options.insert_highscore(60), Some(1));
    assert_eq!(points_of(&options), vec![90, 60, 50, 50, 10, 0, 0, 0, 0, 0]);
    assert_eq!(options.highscores()[1].name(), "");
    assert_eq!(options.highscores()[2].name(), "b");
    assert_eq!(options.insert_highscore(-7), None);
    assert_eq!(points_of(&options), vec![90, 60, 50, 50, 10, 0, 0, 0, 0, 0]);
    assert_eq!(options.insert_highscore(0), Some(5));
    assert_eq!(points_of(&options), vec![90, 60, 50, 50, 10, 0, 0, 0, 0, 0]);
    assert_eq!(options.highscores()[5].name(), "");
    assert_eq!(options.highscores()[6].name(), "Leer");
}
