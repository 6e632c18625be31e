use vstd::prelude::*;
use vstd::slice::{slice_subrange, slice_to_vec};

use crate::command::{classify, SplittedCommands};
use crate::tokenize::tokenize;

verus! {

/// Where a stage's standard input comes from.
#[derive(PartialEq, Eq, Structural, Clone, Copy, Debug)]
pub enum StdinSource {
    /// The shell's own standard input.
    Inherit,
    /// The standard output of the process spawned for the previous stage.
    PreviousOutput,
}

/// Where a stage's standard output goes.
#[derive(PartialEq, Eq, Structural, Clone, Copy, Debug)]
pub enum StdoutSink {
    /// The shell's own standard output.
    Inherit,
    /// A new pipe, read by the next stage.
    Pipe,
}

/// What the previous stage left for the next one: a running process whose
/// output the next stage takes over, or a failure (no process).
#[derive(PartialEq, Eq, Structural, Clone, Copy, Debug)]
pub enum Link {
    Broken,
    Open,
}

/// One process to spawn: program, arguments and how its streams are wired.
#[derive(PartialEq, Eq, Debug)]
pub struct Stage<'a> {
    pub program: &'a str,
    pub args: Vec<&'a str>,
    pub stdin: StdinSource,
    pub stdout: StdoutSink,
}

/// The link a stage leaves, from whether its process was spawned.
pub open spec fn link_after(spawned: bool) -> Link {
    if spawned {
        Link::Open
    } else {
        Link::Broken
    }
}

/// The link that stage `i` finds, given the spawn outcomes of the stages
/// before it. The first stage finds no process.
pub open spec fn link_before(outcomes: Seq<bool>, i: int) -> Link {
    if i <= 0 {
        Link::Broken
    } else {
        link_after(outcomes[i - 1])
    }
}

/// A stage reads the previous process's output when there is one, and the
/// shell's standard input otherwise.
pub open spec fn stdin_for(link: Link) -> StdinSource {
    match link {
        Link::Open => StdinSource::PreviousOutput,
        Link::Broken => StdinSource::Inherit,
    }
}

/// A stage writes into a pipe when another stage follows, and to the
/// shell's standard output otherwise.
pub open spec fn stdout_for(has_next: bool) -> StdoutSink {
    if has_next {
        StdoutSink::Pipe
    } else {
        StdoutSink::Inherit
    }
}

/// Whether a chain with these spawn outcomes ends in a running process: it
/// does exactly when its last stage was spawned.
pub open spec fn chain_succeeds(outcomes: Seq<bool>) -> bool {
    outcomes.len() > 0 && outcomes.last()
}

/// The fixed message of a failed spawn or wait.
pub open spec fn not_found_text() -> Seq<char> {
    "my_shell: command not found"@
}

/// In a chain whose stages so far were all spawned, stage `i` reads the
/// output of stage `i - 1` (the first stage reads the shell's input), and
/// writes into a pipe for stage `i + 1` when there is one (the last stage
/// writes to the shell's output). Data flows left to right in stage order.
pub proof fn lemma_output_feeds_next_stage(stages: nat, outcomes: Seq<bool>, i: int)
    requires
        0 <= i < stages,
        i <= outcomes.len(),
        forall|k: int| 0 <= k < i ==> #[trigger] outcomes[k],
    ensures
        i > 0 ==> stdin_for(link_before(outcomes, i)) == StdinSource::PreviousOutput,
        i == 0 ==> stdin_for(link_before(outcomes, i)) == StdinSource::Inherit,
        i + 1 < stages ==> stdout_for(i + 1 < stages) == StdoutSink::Pipe,
        i + 1 == stages ==> stdout_for(i + 1 < stages) == StdoutSink::Inherit,
{
    if i > 0 {
        assert(outcomes[i - 1]);
    }
}

/// A pipeline whose first stage cannot be started: when it is the only
/// stage the chain fails (with the fixed message, by `finish`), and when
/// more stages follow, the next one is still planned and reads the shell's
/// input instead of a pipe.
pub proof fn lemma_unstartable_first_stage(stages: nat, outcomes: Seq<bool>)
    requires
        stages >= 1,
        outcomes.len() >= 1,
        !outcomes[0],
    ensures
        stages == 1 && outcomes.len() == 1 ==> !chain_succeeds(outcomes),
        stdin_for(link_before(outcomes, 1)) == StdinSource::Inherit,
{
}

/// Nothing carries over from one line to the next: the same line gives the
/// same pipeline and classification, and the same spawn outcomes give the
/// same wiring for every stage and the same result.
pub proof fn lemma_same_line_same_plan(
    line: Seq<char>,
    again: Seq<char>,
    outcomes: Seq<bool>,
    outcomes_again: Seq<bool>,
    stages: nat,
    i: int,
)
    requires
        line == again,
        outcomes == outcomes_again,
    ensures
        tokenize(line) == tokenize(again),
        classify(tokenize(line)) == classify(tokenize(again)),
        stdin_for(link_before(outcomes, i)) == stdin_for(link_before(outcomes_again, i)),
        stdout_for(i + 1 < stages) == stdout_for(i + 1 < stages),
        chain_succeeds(outcomes) == chain_succeeds(outcomes_again),
{
}

/// The message reported when a program could not be started or waited on.
pub fn command_not_found() -> (r: String)
    ensures
        r@ == not_found_text(),
{
    String::from_str("my_shell: command not found")
}

/// Builds a process chain stage by stage: tells the caller what to spawn
/// next, and takes back whether the spawn succeeded. Only the result of the
/// last stage decides the chain's result.
pub struct ChainPlanner {
    stages: usize,
    next: usize,
    link: Link,
    outcomes: Ghost<Seq<bool>>,
}

impl ChainPlanner {
    /// The number of stages of the chain.
    pub closed spec fn stage_count(&self) -> nat {
        self.stages as nat
    }

    /// The spawn outcomes recorded so far, one per stage, in order.
    pub closed spec fn outcomes(&self) -> Seq<bool> {
        self.outcomes@
    }

    pub closed spec fn wf(&self) -> bool {
        &&& self.next == self.outcomes@.len()
        &&& self.next <= self.stages
        &&& self.link == link_before(self.outcomes@, self.next as int)
    }

    /// A planner for a chain of `stages` stages, none spawned yet.
    pub fn new(stages: usize) -> (r: Self)
        ensures
            r.wf(),
            r.stage_count() == stages,
            r.outcomes() == Seq::<bool>::empty(),
    {
        ChainPlanner { stages, next: 0, link: Link::Broken, outcomes: Ghost(Seq::empty()) }
    }

    /// Whether every stage has been spawned or tried.
    pub fn is_done(&self) -> (r: bool)
        requires
            self.wf(),
        ensures
            r == (self.outcomes().len() == self.stage_count()),
            self.outcomes().len() <= self.stage_count(),
    {
        self.next == self.stages
    }

    /// The next stage to spawn, or `None` when every stage has been tried.
    /// The stage runs the group's first token with the rest as arguments;
    /// it reads the previous process's output if that process was spawned,
    /// and writes into a pipe if another stage follows.
    pub fn next_stage<'a>(&self, groups: &SplittedCommands<'a>) -> (r: Option<Stage<'a>>)
        requires
            self.wf(),
            groups@.len() == self.stage_count(),
            forall|k: int| 0 <= k < groups@.len() ==> #[trigger] groups@[k]@.len() >= 1,
        ensures
            r is None <==> self.outcomes().len() == self.stage_count(),
            r matches Some(stage) ==> {
                let i = self.outcomes().len() as int;
                &&& stage.program@ == groups.deep_view()[i][0]
                &&& stage.args.deep_view() == groups.deep_view()[i].drop_first()
                &&& stage.stdin == stdin_for(link_before(self.outcomes(), i))
                &&& stage.stdout == stdout_for(i + 1 < self.stage_count())
            },
    {
        if self.next == self.stages {
            return None;
        }
        let group = &groups[self.next];
        let n = group.len();
        assert(n >= 1);
        let args = slice_to_vec(slice_subrange(group.as_slice(), 1, n));
        assert(args.deep_view() =~= groups.deep_view()[self.next as int].drop_first());
        let stdin = match self.link {
            Link::Open => StdinSource::PreviousOutput,
            Link::Broken => StdinSource::Inherit,
        };
        let stdout = if self.next + 1 < self.stages {
            StdoutSink::Pipe
        } else {
            StdoutSink::Inherit
        };
        Some(Stage { program: group[0], args, stdin, stdout })
    }

    /// Records whether the process of the current stage was spawned.
    pub fn record_spawn(&mut self, spawned: bool)
        requires
            old(self).wf(),
            old(self).outcomes().len() < old(self).stage_count(),
        ensures
            final(self).wf(),
            final(self).stage_count() == old(self).stage_count(),
            final(self).outcomes() == old(self).outcomes().push(spawned),
    {
        self.link = if spawned {
            Link::Open
        } else {
            Link::Broken
        };
        self.next = self.next + 1;
        self.outcomes = Ghost(self.outcomes@.push(spawned));
    }

    /// The result of the chain once every stage has been tried: `Ok` when
    /// the last stage's process runs, else the fixed failure message.
    pub fn finish(&self) -> (r: Result<(), String>)
        requires
            self.wf(),
            self.outcomes().len() == self.stage_count(),
        ensures
            r is Ok <==> chain_succeeds(self.outcomes()),
            r matches Err(msg) ==> msg@ == not_found_text(),
    {
        match self.link {
            Link::Open => Ok(()),
            Link::Broken => Err(command_not_found()),
        }
    }
}

} // verus!
