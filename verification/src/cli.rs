//! Decisions made on the raw argument list before a command is parsed:
//! which word is the command, when the default command applies, and which
//! hint explains an invocation that parses as no command.

use vstd::prelude::*;
use vstd::string::StringExecFns;
use vstd::string::StrSliceExecFns;
use crate::outside::lower_of;
use crate::outside::lowercase;

verus! {

/// An argument that is an option rather than a command word.
pub open spec fn is_flag_like(s: Seq<char>) -> bool {
    s.len() > 0 && s[0] == '-'
}

/// The position of the first argument that is not an option, scanning left
/// to right.
pub fn first_command_word(args: &Vec<String>) -> (r: Option<usize>)
    ensures
        match r {
            Some(i) => i < args@.len() && !is_flag_like(args@[i as int]@)
                && forall|j: int| 0 <= j < i ==> is_flag_like(args@[j]@),
            None => forall|j: int| 0 <= j < args@.len() ==> is_flag_like(args@[j]@),
        },
{
    let n = args.len();
    let mut i: usize = 0;
    while i < n
        invariant
            n == args@.len(),
            i <= n,
            forall|j: int| 0 <= j < i ==> is_flag_like(args@[j]@),
        decreases n - i,
    {
        let a = args[i].as_str();
        if a.is_empty() {
            return Some(i);
        }
        if a.get_char(0) != '-' {
            return Some(i);
        }
        i += 1;
    }
    None
}

/// When the whole invocation is options only (or empty), no command word
/// was given and the default command, the play-pause toggle, applies.
pub fn needs_default_command(args: &Vec<String>) -> (r: bool)
    ensures
        r <==> forall|j: int| 0 <= j < args@.len() ==> is_flag_like(args@[j]@),
{
    match first_command_word(args) {
        Some(i) => {
            proof {
                assert(!is_flag_like(args@[i as int]@));
            }
            false
        },
        None => true,
    }
}

/// The hint printed when an invocation parses as no command: a
/// command-specific explanation for the commands that need a numeric
/// argument, and a generic one otherwise. The word is matched regardless
/// of case, as typed commands often are.
pub fn help_hint(word: &str) -> (r: String)
    ensures
        r@ == if lower_of(word@) == "volume"@ {
            "`volume` requires a percentage to set volume to between 0 and 100\n"@
        } else if lower_of(word@) == "seek"@ {
            "`seek` requires a time to seek to in seconds\n"@
        } else if lower_of(word@) == "jumpto"@ {
            "`jumpto` requires an integer index in the queue to jump to\n"@
        } else {
            "Invalid command `"@ + word@ + "`\n"@
        },
{
    let lw = lowercase(word);
    if lw == String::from_str("volume") {
        String::from_str("`volume` requires a percentage to set volume to between 0 and 100\n")
    } else if lw == String::from_str("seek") {
        String::from_str("`seek` requires a time to seek to in seconds\n")
    } else if lw == String::from_str("jumpto") {
        String::from_str("`jumpto` requires an integer index in the queue to jump to\n")
    } else {
        String::from_str("Invalid command `").concat(word).concat("`\n")
    }
}

} // verus!
