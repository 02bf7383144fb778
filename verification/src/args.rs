//! The arguments of the command line.

use crate::text::same_text;
use vstd::prelude::*;

verus! {

/// What the command line asks for.
pub struct GameArgs {
    /// Start over: an existing save file is deleted.
    pub new_game: bool,
    /// Run the developer's playground in place of the game.
    pub dev: bool,
}

/// Whether one of the arguments is the given flag.
pub open spec fn has_flag(args: Seq<String>, flag: Seq<char>) -> bool {
    exists|i: int| 0 <= i < args.len() && (#[trigger] args[i])@ == flag
}

fn contains_flag(args: &Vec<String>, flag: &str) -> (out: bool)
    ensures
        out == has_flag(args@, flag@),
{
    let mut i: usize = 0;
    while i < args.len()
        invariant
            i <= args@.len(),
            forall|j: int| 0 <= j < i ==> (#[trigger] args@[j])@ != flag@,
        decreases args@.len() - i,
    {
        if same_text(args[i].as_str(), flag) {
            return true;
        }
        i = i + 1;
    }
    false
}

/// Reads the flags `--new-game` and `--dev` off the arguments of the
/// command line. Each is set exactly where it stands among them.
pub fn parse_args(args: &Vec<String>) -> (out: GameArgs)
    ensures
        out.new_game == has_flag(args@, "--new-game"@),
        out.dev == has_flag(args@, "--dev"@),
{
    GameArgs { new_game: contains_flag(args, "--new-game"), dev: contains_flag(args, "--dev") }
}

} // verus!
