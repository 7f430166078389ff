//! The settings of the program and the table of high scores.
use vstd::prelude::*;

verus! {

/// One line of the table of high scores.
#[derive(Clone, Debug)]
pub struct Highscore {
    pub name: String,
    pub points: i32,
}

/// The settings that the command line can change, and the high scores.
#[derive(Clone, Debug)]
pub struct Options {
    pub fullscreen_enabled: bool,
    pub sound_enabled: bool,
    pub verbose_enabled: bool,
    pub highscores: Vec<Highscore>,
    pub number_of_highscores: usize,
}

/// What the program does after it has read its command line.
#[derive(Clone, Copy, PartialEq, Eq, Debug, Structural)]
pub enum StartupAction {
    /// Start the game.
    Run,
    /// Print the description and the list of options, then leave.
    PrintHelp,
    /// Print the version, then leave.
    PrintVersion,
    /// Print the description, then leave.
    PrintLicense,
}

/// Number of lines in the table of high scores.
pub const NUMBER_OF_HIGHSCORES: usize = 10;

/// What an argument asks the program to do in place of running the game.
pub open spec fn action_of(argument: Seq<char>) -> StartupAction {
    if argument == "-h"@ || argument == "--help"@ {
        StartupAction::PrintHelp
    } else if argument == "-V"@ || argument == "--version"@ {
        StartupAction::PrintVersion
    } else if argument == "-L"@ || argument == "--license"@ {
        StartupAction::PrintLicense
    } else {
        StartupAction::Run
    }
}

/// The points of the first `n` lines are all above `points`.
pub open spec fn all_above(highscores: Seq<Highscore>, n: int, points: i32) -> bool {
    forall|i: int| 0 <= i < n ==> (#[trigger] highscores[i]).points > points
}

fn is_flag(argument: &String, literal: &str) -> (r: bool)
    ensures
        r == (argument@ == literal@),
{
    *argument == literal.to_owned()
}

impl Highscore {
    /// A line with a name and points.
    pub fn new(name: String, points: i32) -> (r: Highscore)
        ensures
            r.name == name,
            r.points == points,
    {
        Highscore { name, points }
    }

    /// A copy of the name.
    pub fn name(&self) -> (r: String)
        ensures
            r@ == self.name@,
    {
        self.name.clone()
    }

    /// Replaces the name.
    pub fn set_name(&mut self, name: String)
        ensures
            final(self).name == name,
            final(self).points == old(self).points,
    {
        self.name = name;
    }

    /// The points.
    pub fn points(&self) -> (r: i32)
        ensures
            r == self.points,
    {
        self.points
    }

    /// Replaces the points.
    pub fn set_points(&mut self, points: i32)
        ensures
            final(self).points == points,
            final(self).name == old(self).name,
    {
        self.points = points;
    }
}

impl Options {
    /// The settings after one argument that does not end the program.
    pub open spec fn with_argument(self, argument: Seq<char>) -> Options {
        if argument == "-f"@ || argument == "--fullscreen"@ {
            Options { fullscreen_enabled: true, ..self }
        } else if argument == "--no-fullscreen"@ {
            Options { fullscreen_enabled: false, ..self }
        } else if argument == "-s"@ || argument == "--sound"@ {
            Options { sound_enabled: true, ..self }
        } else if argument == "--no-sound"@ {
            Options { sound_enabled: false, ..self }
        } else if argument == "-v"@ || argument == "--verbose"@ {
            Options { verbose_enabled: true, ..self }
        } else {
            self
        }
    }

    /// The settings and the action after the arguments from position `i` on:
    /// the arguments are read in order, and the first that asks for help, the
    /// version or the license ends the reading.
    pub open spec fn after_arguments(self, arguments: Seq<String>, i: int) -> (Options, StartupAction)
        decreases arguments.len() - i,
    {
        if i < 0 || i >= arguments.len() {
            (self, StartupAction::Run)
        } else if action_of(arguments[i]@) != StartupAction::Run {
            (self, action_of(arguments[i]@))
        } else {
            self.with_argument(arguments[i]@).after_arguments(arguments, i + 1)
        }
    }

    /// The settings before any argument is read: sound on, the rest off, and
    /// the given high scores.
    pub open spec fn initial(highscores: Vec<Highscore>) -> Options {
        Options {
            fullscreen_enabled: false,
            sound_enabled: true,
            verbose_enabled: false,
            highscores,
            number_of_highscores: NUMBER_OF_HIGHSCORES,
        }
    }

    /// The settings for the stored high scores and the arguments of the
    /// command line (without the name of the program). The table is filled up
    /// to its full length with empty lines named "Leer".
    pub fn load(highscores: Vec<Highscore>, arguments: &Vec<String>) -> (r: (
        Options,
        StartupAction,
    ))
        ensures
            r.0.number_of_highscores == NUMBER_OF_HIGHSCORES,
            r.0.highscores@.len() == if highscores@.len() < NUMBER_OF_HIGHSCORES {
                NUMBER_OF_HIGHSCORES as nat
            } else {
                highscores@.len()
            },
            forall|i: int| 0 <= i < highscores@.len() ==> r.0.highscores@[i] == highscores@[i],
            forall|i: int|
                highscores@.len() <= i < r.0.highscores@.len() ==> (#[trigger] r.0.highscores@[i]).name@
                    == "Leer"@ && r.0.highscores@[i].points == 0,
            r == Options::initial(r.0.highscores).after_arguments(arguments@, 0),
    {
        let mut options = Options {
            fullscreen_enabled: false,
            sound_enabled: true,
            verbose_enabled: false,
            highscores,
            number_of_highscores: NUMBER_OF_HIGHSCORES,
        };
        while options.highscores.len() < NUMBER_OF_HIGHSCORES
            invariant
                options.fullscreen_enabled == false,
                options.sound_enabled == true,
                options.verbose_enabled == false,
                options.number_of_highscores == NUMBER_OF_HIGHSCORES,
                highscores@.len() <= options.highscores@.len(),
                options.highscores@.len() <= NUMBER_OF_HIGHSCORES || options.highscores@.len()
                    == highscores@.len(),
                forall|i: int| 0 <= i < highscores@.len() ==> options.highscores@[i] == highscores@[i],
                forall|i: int|
                    highscores@.len() <= i < options.highscores@.len() ==> (
                    #[trigger] options.highscores@[i]).name@ == "Leer"@
                        && options.highscores@[i].points == 0,
            decreases NUMBER_OF_HIGHSCORES - options.highscores@.len(),
        {
            options.highscores.push(Highscore::new("Leer".to_owned(), 0));
        }
        let ghost start = options;
        let mut action = StartupAction::Run;
        let mut i: usize = 0;
        while i < arguments.len() && action == StartupAction::Run
            invariant
                i <= arguments@.len(),
                options.highscores == start.highscores,
                options.number_of_highscores == NUMBER_OF_HIGHSCORES,
                action == StartupAction::Run ==> start.after_arguments(arguments@, 0)
                    == options.after_arguments(arguments@, i as int),
                action != StartupAction::Run ==> start.after_arguments(arguments@, 0) == (
                    options,
                    action,
                ),
            decreases arguments@.len() - i, if action == StartupAction::Run { 1int } else { 0int },
        {
            let argument = &arguments[i];
            if is_flag(argument, "-h") || is_flag(argument, "--help") {
                action = StartupAction::PrintHelp;
            } else if is_flag(argument, "-V") || is_flag(argument, "--version") {
                action = StartupAction::PrintVersion;
            } else if is_flag(argument, "-L") || is_flag(argument, "--license") {
                action = StartupAction::PrintLicense;
            } else {
                if is_flag(argument, "-f") || is_flag(argument, "--fullscreen") {
                    options.fullscreen_enabled = true;
                } else if is_flag(argument, "--no-fullscreen") {
                    options.fullscreen_enabled = false;
                } else if is_flag(argument, "-s") || is_flag(argument, "--sound") {
                    options.sound_enabled = true;
                } else if is_flag(argument, "--no-sound") {
                    options.sound_enabled = false;
                } else if is_flag(argument, "-v") || is_flag(argument, "--verbose") {
                    options.verbose_enabled = true;
                }
                i += 1;
            }
        }
        (options, action)
    }

    /// Whether the game covers the whole screen.
    pub fn fullscreen_enabled(&self) -> (r: bool)
        ensures
            r == self.fullscreen_enabled,
    {
        self.fullscreen_enabled
    }

    /// Sets whether the game covers the whole screen.
    pub fn set_fullscreen_enabled(&mut self, fullscreen_enabled: bool)
        ensures
            *final(self) == (Options { fullscreen_enabled, ..*old(self) }),
    {
        self.fullscreen_enabled = fullscreen_enabled;
    }

    /// Whether sound is played.
    pub fn sound_enabled(&self) -> (r: bool)
        ensures
            r == self.sound_enabled,
    {
        self.sound_enabled
    }

    /// Whether the program reports what it does.
    pub fn verbose_enabled(&self) -> (r: bool)
        ensures
            r == self.verbose_enabled,
    {
        self.verbose_enabled
    }

    /// Number of lines in the table of high scores.
    pub fn number_of_highscores(&self) -> (r: usize)
        ensures
            r == self.number_of_highscores,
    {
        self.number_of_highscores
    }

    /// The table of high scores, best first.
    pub fn highscores(&self) -> (r: &Vec<Highscore>)
        ensures
            *r == self.highscores,
    {
        &self.highscores
    }

    /// The table of high scores, to be changed in place.
    pub fn highscores_mut(&mut self) -> (r: &mut Vec<Highscore>)
        ensures
            *r == old(self).highscores,
            *final(self) == (Options { highscores: *final(r), ..*old(self) }),
    {
        &mut self.highscores
    }

    /// The line at which a run with `points` enters the table: the first
    /// whose points are not above `points`.
    pub fn new_highscore_index(&self, points: i32) -> (r: Option<usize>)
        ensures
            match r {
                Some(index) => index < self.highscores@.len() && self.highscores@[index as int].points
                    <= points && all_above(self.highscores@, index as int, points),
                None => all_above(self.highscores@, self.highscores@.len() as int, points),
            },
    {
        let mut i: usize = 0;
        while i < self.highscores.len()
            invariant
                i <= self.highscores@.len(),
                all_above(self.highscores@, i as int, points),
            decreases self.highscores@.len() - i,
        {
            if self.highscores[i].points <= points {
                return Some(i);
            }
            i += 1;
        }
        None
    }

    /// Whether `after` is the settings after a run with `points` was
    /// entered into the table, at the line `line`: the first whose points are
    /// not above `points`. The new line has an empty name; the lines below it
    /// have moved down, and what then lay beyond the length of the table is
    /// dropped. Where every line is above, there is no such line, and
    /// nothing has changed.
    pub open spec fn inserts_highscore_to(self, after: Options, points: i32, line: Option<usize>) -> bool {
        &&& after.fullscreen_enabled == self.fullscreen_enabled
        &&& after.sound_enabled == self.sound_enabled
        &&& after.verbose_enabled == self.verbose_enabled
        &&& after.number_of_highscores == self.number_of_highscores
        &&& match line {
            Some(index) => {
                let before = self.highscores@;
                let now = after.highscores@;
                &&& index < before.len()
                &&& before[index as int].points <= points
                &&& all_above(before, index as int, points)
                &&& now.len() == if before.len() + 1 > self.number_of_highscores {
                    self.number_of_highscores as nat
                } else {
                    before.len() + 1
                }
                &&& forall|i: int| 0 <= i < now.len() && i < index ==> now[i] == before[i]
                &&& index < now.len() ==> now[index as int].name@ == Seq::<char>::empty()
                    && now[index as int].points == points
                &&& forall|i: int| index < i < now.len() ==> now[i] == before[i - 1]
            },
            None => after.highscores == self.highscores && all_above(
                self.highscores@,
                self.highscores@.len() as int,
                points,
            ),
        }
    }

    /// Enters a run with `points` into the table under an empty name, at the
    /// first line whose points are not above `points`. Returns the line, or
    /// `None`, with the table unchanged, where every line is above.
    pub fn insert_highscore(&mut self, points: i32) -> (r: Option<usize>)
        ensures
            old(self).inserts_highscore_to(*final(self), points, r),
    {
        match self.new_highscore_index(points) {
            Some(index) => {
                self.highscores.insert(index, Highscore::new(String::new(), points));
                if self.highscores.len() > self.number_of_highscores {
                    self.highscores.truncate(self.number_of_highscores);
                }
                Some(index)
            },
            None => None,
        }
    }
}

} // verus!
