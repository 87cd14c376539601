//! A small program to try out snapshots:
//!
//! ```text
//! snapshot                     take a picture
//! compose [fps]                make a video of the pictures
//! loop [n] [fps] [interval]    take n pictures, then make a video of them
//! ```

use vstd::prelude::*;

use crate::text::{number_of, parse_u32, str_eq};

verus! {

broadcast use vstd::string::group_string_axioms;

/// The frame rate where none is given.
pub const DEFAULT_FPS: u32 = 5;

/// How many pictures are taken where no number is given.
pub const DEFAULT_COUNT: u32 = 5;

/// What the command line asks for.
#[derive(Debug, Clone, Copy, PartialEq, Eq, Structural)]
pub enum TestCommand {
    /// Nothing: say how the program is used.
    Usage,
    /// Something unknown: say so, and how the program is used.
    Unknown,
    Snapshot,
    Compose { fps: u32 },
    /// How long to wait between pictures is in the fourth argument.
    Loop { count: u32, fps: u32 },
}

/// The number in an argument, or else another one: where there is no such argument,
/// or where it is no number of 32 bits.
pub open spec fn number_or(args: Seq<String>, at: int, other: u32) -> u32 {
    if 0 <= at < args.len() {
        match number_of(args[at]@) {
            Some(n) => if n <= u32::MAX {
                n as u32
            } else {
                other
            },
            None => other,
        }
    } else {
        other
    }
}

/// What arguments ask for.
pub open spec fn command_of(args: Seq<String>) -> TestCommand {
    if args.len() == 0 {
        TestCommand::Usage
    } else if args[0]@ == "snapshot"@ {
        TestCommand::Snapshot
    } else if args[0]@ == "compose"@ {
        TestCommand::Compose { fps: number_or(args, 1, DEFAULT_FPS) }
    } else if args[0]@ == "loop"@ {
        TestCommand::Loop {
            count: number_or(args, 1, DEFAULT_COUNT),
            fps: number_or(args, 2, DEFAULT_FPS),
        }
    } else {
        TestCommand::Unknown
    }
}

fn number_arg(args: &Vec<String>, at: usize, other: u32) -> (r: u32)
    ensures
        r == number_or(args@, at as int, other),
{
    if at < args.len() {
        match parse_u32(args[at].as_str()) {
            Some(n) => n,
            None => other,
        }
    } else {
        other
    }
}

/// What arguments ask for; the program's own name is not among them.
pub fn parse_args(args: &Vec<String>) -> (r: TestCommand)
    ensures
        r == command_of(args@),
{
    if args.len() == 0 {
        return TestCommand::Usage;
    }
    let name = args[0].as_str();
    if str_eq(name, "snapshot") {
        TestCommand::Snapshot
    } else if str_eq(name, "compose") {
        TestCommand::Compose { fps: number_arg(args, 1, DEFAULT_FPS) }
    } else if str_eq(name, "loop") {
        TestCommand::Loop {
            count: number_arg(args, 1, DEFAULT_COUNT),
            fps: number_arg(args, 2, DEFAULT_FPS),
        }
    } else {
        TestCommand::Unknown
    }
}

/// What to do next in a loop.
#[derive(Debug, Clone, Copy, PartialEq, Eq, Structural)]
pub enum LoopStep {
    /// Take the picture with this number, counted from one, and wait if it is not the
    /// last.
    Snapshot { number: u32, wait: bool },
    /// Make the video.
    Compose { fps: u32 },
    Finished,
}

/// A loop over pictures.
#[derive(Debug, Clone, Copy, PartialEq, Eq, Structural)]
pub struct SnapshotLoop {
    pub count: u32,
    pub fps: u32,
    /// How many pictures were taken.
    pub taken: u32,
    pub composed: bool,
}

/// What to do next, and the loop after that.
pub open spec fn loop_step(l: SnapshotLoop) -> (SnapshotLoop, LoopStep) {
    if l.taken < l.count {
        (
            SnapshotLoop { taken: (l.taken + 1) as u32, ..l },
            LoopStep::Snapshot { number: (l.taken + 1) as u32, wait: l.taken + 1 < l.count },
        )
    } else if !l.composed {
        (SnapshotLoop { composed: true, ..l }, LoopStep::Compose { fps: l.fps })
    } else {
        (l, LoopStep::Finished)
    }
}

impl SnapshotLoop {
    pub fn new(count: u32, fps: u32) -> (r: SnapshotLoop)
        ensures
            r == (SnapshotLoop { count, fps, taken: 0, composed: false }),
    {
        SnapshotLoop { count, fps, taken: 0, composed: false }
    }

    /// What to do next.
    pub fn next_step(&mut self) -> (r: LoopStep)
        ensures
            (*final(self), r) == loop_step(*old(self)),
    {
        if self.taken < self.count {
            self.taken = self.taken + 1;
            LoopStep::Snapshot { number: self.taken, wait: self.taken < self.count }
        } else if !self.composed {
            self.composed = true;
            LoopStep::Compose { fps: self.fps }
        } else {
            LoopStep::Finished
        }
    }
}

/// The loop after so many steps.
pub open spec fn after_steps(l: SnapshotLoop, steps: nat) -> SnapshotLoop
    decreases steps,
{
    if steps == 0 {
        l
    } else {
        loop_step(after_steps(l, (steps - 1) as nat)).0
    }
}

/// A loop takes as many pictures as it was asked to, numbered in order, then makes
/// one video, and is finished.
pub proof fn law_loop_runs(count: u32, fps: u32, step: nat)
    ensures
        ({
            let l = SnapshotLoop { count, fps, taken: 0, composed: false };
            let now = after_steps(l, step);
            &&& now == (SnapshotLoop {
                count,
                fps,
                taken: if step < count {
                    step as u32
                } else {
                    count
                },
                composed: step > count,
            })
            &&& loop_step(now).1 == if step < count {
                LoopStep::Snapshot { number: (step + 1) as u32, wait: step + 1 < count }
            } else if step == count {
                LoopStep::Compose { fps }
            } else {
                LoopStep::Finished
            }
        }),
    decreases step,
{
    if step > 0 {
        law_loop_runs(count, fps, (step - 1) as nat);
    }
}

/// What the command line asks for: a snapshot, a video, or a number of snapshots and then
/// a video. Numbers that are left out or cannot be read are five each.
pub proof fn law_commands(args: Seq<String>)
    requires
        args.len() > 0,
    ensures
        command_of(seq![]) == TestCommand::Usage,
        args[0]@ == "snapshot"@ <==> command_of(args) == TestCommand::Snapshot,
        args[0]@ == "compose"@ ==> (command_of(args) matches TestCommand::Compose { fps } && fps
            == number_or(args, 1, 5)),
        args[0]@ == "loop"@ ==> (command_of(args) matches TestCommand::Loop { count, fps } && count
            == number_or(args, 1, 5) && fps == number_or(args, 2, 5)),
        args[0]@ != "snapshot"@ && args[0]@ != "compose"@ && args[0]@ != "loop"@ ==> command_of(args)
            == TestCommand::Unknown,
{
    reveal_strlit("snapshot");
    reveal_strlit("compose");
    reveal_strlit("loop");
    assert("snapshot"@.len() == 8 && "compose"@.len() == 7 && "loop"@.len() == 4);
}

/// An argument is taken as a number where it is one of 32 bits, and only then.
pub proof fn law_number_arguments(args: Seq<String>, at: int, other: u32)
    ensures
        at >= args.len() ==> number_or(args, at, other) == other,
        0 <= at < args.len() ==> match number_of(args[at]@) {
            Some(n) => number_or(args, at, other) == if n < 0x1_0000_0000 {
                n as u32
            } else {
                other
            },
            None => number_or(args, at, other) == other,
        },
{
}

} // verus!
