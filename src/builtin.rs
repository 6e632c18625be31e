use vstd::prelude::*;
use vstd::slice::slice_subrange;

use crate::command::{empty_string, Builtin, SplittedCommands};

verus! {

/// What a built-in asks of the shell process.
#[derive(PartialEq, Eq, Debug)]
pub enum BuiltinAction<'a> {
    /// Print this text; nothing else happens.
    Output(String),
    /// Make this path the working directory, then print what `cd_report` gives.
    ChangeDirectory(&'a str),
    /// End the shell at once with this status code, printing nothing.
    Exit(i32),
}

/// The status code that `exit` ends the shell with.
pub const EXIT_STATUS: i32 = 1;

/// The arguments of a command group: its tokens after the program name.
pub open spec fn arguments(group: Seq<Seq<char>>) -> Seq<Seq<char>> {
    if group.len() == 0 {
        Seq::empty()
    } else {
        group.drop_first()
    }
}

/// The directory that `cd` goes to: its first argument, or the root
/// directory when it has none.
pub open spec fn cd_target_of(args: Seq<Seq<char>>) -> Seq<char> {
    if args.len() == 0 {
        seq!['/']
    } else {
        args[0]
    }
}

/// The message that a failed `cd` prints.
pub open spec fn cd_failure_text(path: Seq<char>) -> Seq<char> {
    "cd: no such file or directory: "@ + path + "\n"@
}

/// The directory that `cd` with these arguments goes to.
pub fn cd_target<'a>(args: &[&'a str]) -> (r: &'a str)
    ensures
        r@ == cd_target_of(args.deep_view()),
{
    if args.len() == 0 {
        proof {
            reveal_strlit("/");
        }
        let root: &'a str = "/";
        assert(root@ =~= seq!['/']);
        root
    } else {
        args[0]
    }
}

/// What `cd` prints once the shell has tried to change to `path`: nothing
/// when the change was made, else a line naming the path.
pub fn cd_report(path: &str, changed: bool) -> (r: String)
    ensures
        changed ==> r@ == Seq::<char>::empty(),
        !changed ==> r@ == cd_failure_text(path@),
{
    if changed {
        empty_string()
    } else {
        let mut text = String::from_str("cd: no such file or directory: ");
        text.append(path);
        text.append("\n");
        text
    }
}

/// Runs a given built in program on the pipeline it heads: decides what the
/// shell process must do. Only the first command group counts.
pub fn run_builtin<'a>(builtin: Builtin, args: &SplittedCommands<'a>) -> (r: BuiltinAction<'a>)
    ensures
        builtin == Builtin::Exit ==> r == BuiltinAction::Exit(EXIT_STATUS),
        builtin == Builtin::Cd && args@.len() == 0 ==> r is Output && r->Output_0@
            == Seq::<char>::empty(),
        builtin == Builtin::Cd && args@.len() > 0 ==> r is ChangeDirectory && r->ChangeDirectory_0@
            == cd_target_of(arguments(args.deep_view()[0])),
{
    match builtin {
        Builtin::Cd => {
            if args.len() == 0 {
                return BuiltinAction::Output(empty_string());
            }
            let group = &args[0];
            let n = group.len();
            let rest = if n == 0 {
                slice_subrange(group.as_slice(), 0, 0)
            } else {
                slice_subrange(group.as_slice(), 1, n)
            };
            assert(rest.deep_view() =~= arguments(args.deep_view()[0]));
            BuiltinAction::ChangeDirectory(cd_target(rest))
        },
        Builtin::Exit => BuiltinAction::Exit(EXIT_STATUS),
    }
}

} // verus!
