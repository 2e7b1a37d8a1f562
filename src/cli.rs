use vstd::prelude::*;
use crate::text::{chars_of, same_chars, slice, string_of};

verus! {

/// The version that `--version` reports.
pub const VERSION: &'static str = "0.0.1-dev";

/// What the command line asks for.
#[derive(Clone, Debug, PartialEq, Eq)]
pub enum Command {
    Help,
    Version,
    /// Show the system, with the distribution's art and name chosen by the
    /// given identifier where there is one.
    Run(Option<String>),
    /// An argument that is not understood.
    Invalid(String),
}

/// The model of a command.
pub enum CommandModel {
    Help,
    Version,
    Run(Option<Seq<char>>),
    Invalid(Seq<char>),
}

impl View for Command {
    type V = CommandModel;

    open spec fn view(&self) -> CommandModel {
        match self {
            Command::Help => CommandModel::Help,
            Command::Version => CommandModel::Version,
            Command::Run(Some(d)) => CommandModel::Run(Some(d@)),
            Command::Run(None) => CommandModel::Run(None),
            Command::Invalid(a) => CommandModel::Invalid(a@),
        }
    }
}

/// The distribution identifier that an argument `--distro=<id>` or
/// `-d=<id>` gives.
pub open spec fn distro_arg(a: Seq<char>) -> Option<Seq<char>> {
    if a.len() >= 9 && a.take(9) == "--distro="@ {
        Some(a.skip(9))
    } else if a.len() >= 3 && a.take(3) == "-d="@ {
        Some(a.skip(3))
    } else {
        None
    }
}

/// The command that the arguments `args` give: the first help, version or
/// unknown argument decides; otherwise the last distribution given, if any,
/// is shown.
pub open spec fn command_of(args: Seq<Seq<char>>) -> CommandModel
    decreases args.len(),
{
    if args.len() == 0 {
        CommandModel::Run(None)
    } else {
        let a = args[0];
        if a == "--help"@ {
            CommandModel::Help
        } else if a == "--version"@ {
            CommandModel::Version
        } else {
            match distro_arg(a) {
                Some(d) => match command_of(args.drop_first()) {
                    CommandModel::Run(None) => CommandModel::Run(Some(d)),
                    other => other,
                },
                None => CommandModel::Invalid(a),
            }
        }
    }
}

fn distro_value(a: &Vec<char>) -> (r: Option<Vec<char>>)
    ensures
        distro_arg(a@) == match r {
            Some(v) => Some(v@),
            None => None::<Seq<char>>,
        },
{
    if a.len() >= 9 && same_chars(&slice(a, 0, 9), &chars_of("--distro=")) {
        return Some(slice(a, 9, a.len()));
    }
    if a.len() >= 3 && same_chars(&slice(a, 0, 3), &chars_of("-d=")) {
        return Some(slice(a, 3, a.len()));
    }
    None
}

fn parse_from(args: &Vec<String>, i: usize) -> (r: Command)
    requires
        i <= args.len(),
    ensures
        r@ == command_of(args@.map_values(|s: String| s@).skip(i as int)),
    decreases args.len() - i,
{
    let ghost rest = args@.map_values(|s: String| s@).skip(i as int);
    if i == args.len() {
        assert(rest =~= Seq::<Seq<char>>::empty());
        return Command::Run(None);
    }
    assert(rest[0] == args[i as int]@);
    assert(rest.drop_first() =~= args@.map_values(|s: String| s@).skip(i + 1));
    let a = chars_of(args[i].as_str());
    if same_chars(&a, &chars_of("--help")) {
        return Command::Help;
    }
    if same_chars(&a, &chars_of("--version")) {
        return Command::Version;
    }
    match distro_value(&a) {
        Some(d) => {
            let later = parse_from(args, i + 1);
            match later {
                Command::Run(None) => Command::Run(Some(string_of(&d))),
                other => other,
            }
        },
        None => Command::Invalid(args[i].clone()),
    }
}

/// The command that the arguments `args` (the program name left out) give.
pub fn parse_args(args: &Vec<String>) -> (r: Command)
    ensures
        r@ == command_of(args@.map_values(|s: String| s@)),
{
    assert(args@.map_values(|s: String| s@).skip(0) =~= args@.map_values(|s: String| s@));
    parse_from(args, 0)
}

} // verus!
