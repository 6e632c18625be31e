use vstd::prelude::*;

verus! {

/// A pipeline as tokenized from one line: command groups, each a program
/// name followed by its arguments.
pub type SplittedCommands<'a> = Vec<Vec<&'a str>>;

/// A program can either be a built in program (such as `cd`) or a generic program.
#[derive(PartialEq, Eq, Structural, Clone, Copy, Debug)]
pub enum Program {
    Builtin(Builtin),
    Program,
}

/// The different kinds of built in programs.
#[derive(PartialEq, Eq, Structural, Clone, Copy, Debug)]
pub enum Builtin {
    Cd,
    Exit,
}

/// The classification of a pipeline: `None` when it holds no command at all.
pub open spec fn classify(commands: Seq<Seq<Seq<char>>>) -> Option<Program> {
    if commands.len() == 0 || commands[0].len() == 0 {
        None
    } else if commands[0][0] == seq!['c', 'd'] {
        Some(Program::Builtin(Builtin::Cd))
    } else if commands[0][0] == seq!['e', 'x', 'i', 't'] {
        Some(Program::Builtin(Builtin::Exit))
    } else {
        Some(Program::Program)
    }
}

/// A fresh empty string.
pub fn empty_string() -> (r: String)
    ensures
        r@ == Seq::<char>::empty(),
{
    proof {
        reveal_strlit("");
    }
    let r = String::from_str("");
    assert(r@ =~= Seq::<char>::empty());
    r
}

/// Whether two strings hold the same characters.
pub fn str_equal(a: &str, b: &str) -> (r: bool)
    ensures
        r == (a@ == b@),
{
    let n = a.unicode_len();
    if n != b.unicode_len() {
        return false;
    }
    let mut i: usize = 0;
    while i < n
        invariant
            n == a@.len(),
            n == b@.len(),
            i <= n,
            a@.subrange(0, i as int) == b@.subrange(0, i as int),
        decreases n - i,
    {
        if a.get_char(i) != b.get_char(i) {
            return false;
        }
        assert(a@.subrange(0, i + 1) =~= a@.subrange(0, i as int).push(a@[i as int]));
        assert(b@.subrange(0, i + 1) =~= b@.subrange(0, i as int).push(b@[i as int]));
        i = i + 1;
    }
    assert(a@ =~= a@.subrange(0, n as int));
    assert(b@ =~= b@.subrange(0, n as int));
    true
}

/// Given a command, returns whether the command is a builtin or a different program.
/// Looks only at the first token of the first command group; a pipeline with
/// no group, or whose first group is empty, is an error with an empty message.
pub fn command_type(commands: &SplittedCommands) -> (r: Result<Program, String>)
    ensures
        r is Err <==> classify(commands.deep_view()) is None,
        r is Ok ==> classify(commands.deep_view()) == Some(r->Ok_0),
        r is Err ==> r->Err_0@ == Seq::<char>::empty(),
{
    if commands.len() == 0 {
        return Err(empty_string());
    }
    let first = &commands[0];
    if first.len() == 0 {
        return Err(empty_string());
    }
    let program: &str = first[0];
    proof {
        reveal_strlit("cd");
        reveal_strlit("exit");
    }
    if str_equal(program, "cd") {
        assert("cd"@ =~= seq!['c', 'd']);
        Ok(Program::Builtin(Builtin::Cd))
    } else if str_equal(program, "exit") {
        assert("exit"@ =~= seq!['e', 'x', 'i', 't']);
        Ok(Program::Builtin(Builtin::Exit))
    } else {
        assert("cd"@ =~= seq!['c', 'd']);
        assert("exit"@ =~= seq!['e', 'x', 'i', 't']);
        Ok(Program::Program)
    }
}

} // verus!
