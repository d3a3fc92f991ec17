use vstd::prelude::*;
use crate::session::{builtin_of, dispatch_line, dispatched, trimmed_of, Builtin, Dispatch};
use crate::text::{copy_chars, views};

verus! {

/// What one read of a line produced.
#[derive(Debug)]
pub enum ReadResult {
    /// A finished line.
    Line(Vec<char>),
    /// The line was abandoned; the session goes on.
    Interrupted,
    /// The input ended.
    EndOfInput,
    /// The terminal failed to deliver input.
    Failed,
}

/// What the driver does after one read.
#[derive(Debug)]
pub enum Step {
    /// Carry out what the line asks for.
    Run(Dispatch),
    /// Tell the user that reading failed, then read again.
    Report,
    /// Read the next line.
    Idle,
    /// End the session.
    Terminate,
}

/// The state of one interactive session: whether bracketed paste was
/// switched on at its start, whether it has been switched off again, and
/// whether the session has ended.
pub struct Session {
    pub paste_enabled: bool,
    pub paste_released: bool,
    pub ended: bool,
}

/// Whether `r` is the step owed for `input`.
pub open spec fn step_for(r: Step, input: ReadResult, names: Seq<Seq<char>>) -> bool {
    match input {
        ReadResult::EndOfInput => r is Terminate,
        ReadResult::Interrupted => r is Idle,
        ReadResult::Failed => r is Report,
        ReadResult::Line(l) => if builtin_of(trimmed_of(l@)) == Some(Builtin::Exit) {
            r is Terminate
        } else {
            r is Run && dispatched(r->Run_0, l@, names)
        },
    }
}

/// What a scripted session did.
pub struct ScriptOutcome {
    pub steps: Vec<Step>,
    /// How many times bracketed paste was switched off.
    pub paste_disables: usize,
    /// Whether the session ended by end of input or an exit command, rather
    /// than by the input running out.
    pub terminated: bool,
}

impl Session {
    /// Starts a session; `paste_enabled` tells whether switching bracketed
    /// paste on succeeded.
    pub fn start(paste_enabled: bool) -> (r: Session)
        ensures
            r.paste_enabled == paste_enabled,
            !r.paste_released,
            !r.ended,
    {
        Session { paste_enabled, paste_released: false, ended: false }
    }

    /// Decides the step for one read. End of input and the exit commands end
    /// the session; an interrupt and a failed read do not.
    pub fn next(&mut self, input: ReadResult, names: &Vec<Vec<char>>) -> (r: Step)
        requires
            !old(self).ended,
        ensures
            step_for(r, input, views(names@)),
            final(self).ended == r is Terminate,
            final(self).paste_enabled == old(self).paste_enabled,
            final(self).paste_released == old(self).paste_released,
    {
        match input {
            ReadResult::EndOfInput => {
                self.ended = true;
                Step::Terminate
            },
            ReadResult::Interrupted => Step::Idle,
            ReadResult::Failed => Step::Report,
            ReadResult::Line(l) => {
                let d = dispatch_line(&l, names);
                match d {
                    Dispatch::Builtin(Builtin::Exit) => {
                        self.ended = true;
                        Step::Terminate
                    },
                    _ => Step::Run(d),
                }
            },
        }
    }

    /// Tears the session down, on whatever path it ended. Returns whether
    /// bracketed paste must be switched off now: exactly when it was switched
    /// on at the start. It can run only once.
    pub fn finish(&mut self) -> (disable_paste: bool)
        requires
            !old(self).paste_released,
        ensures
            disable_paste == old(self).paste_enabled,
            final(self).paste_released,
            final(self).paste_enabled == old(self).paste_enabled,
            final(self).ended,
    {
        self.paste_released = true;
        self.ended = true;
        self.paste_enabled
    }
}

/// Runs a session over scripted reads, from its start to its teardown. The
/// session stops at end of input or an exit command, or when the reads run
/// out, as when the terminal goes away. Bracketed paste is switched off
/// exactly once if switching it on succeeded, and never otherwise.
pub fn run_script(paste_ok: bool, inputs: &Vec<ReadResult>, names: &Vec<Vec<char>>) -> (r:
    ScriptOutcome)
    ensures
        r.paste_disables == if paste_ok {
            1usize
        } else {
            0usize
        },
        r.steps.len() <= inputs.len(),
        forall|i: int|
            0 <= i < r.steps.len() ==> step_for(
                #[trigger] r.steps@[i],
                inputs@[i],
                views(names@),
            ),
        r.terminated <==> r.steps.len() > 0 && r.steps@.last() is Terminate,
        forall|i: int| 0 <= i < r.steps.len() - 1 ==> !(#[trigger] r.steps@[i] is Terminate),
        !r.terminated ==> r.steps.len() == inputs.len(),
{
    let mut s = Session::start(paste_ok);
    let mut steps: Vec<Step> = Vec::new();
    let mut i: usize = 0;
    while i < inputs.len() && !s.ended
        invariant
            i <= inputs.len(),
            steps.len() == i,
            s.paste_enabled == paste_ok,
            !s.paste_released,
            s.ended <==> i > 0 && steps@.last() is Terminate,
            forall|j: int| 0 <= j < i ==> step_for(#[trigger] steps@[j], inputs@[j], views(names@)),
            forall|j: int| 0 <= j < i - 1 ==> !(#[trigger] steps@[j] is Terminate),
        decreases inputs.len() - i,
    {
        let input = match &inputs[i] {
            ReadResult::Line(l) => ReadResult::Line(copy_chars(l)),
            ReadResult::Interrupted => ReadResult::Interrupted,
            ReadResult::EndOfInput => ReadResult::EndOfInput,
            ReadResult::Failed => ReadResult::Failed,
        };
        let st = s.next(input, names);
        steps.push(st);
        i = i + 1;
    }
    let terminated = s.ended;
    let disable = s.finish();
    let paste_disables: usize = if disable {
        1
    } else {
        0
    };
    ScriptOutcome { steps, paste_disables, terminated }
}

} // verus!
