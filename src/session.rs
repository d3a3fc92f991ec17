use vstd::prelude::*;
use crate::completion::contains_chars;
use crate::text::{copy_chars, is_word, views};

verus! {

/// What shell-style splitting makes of a line: its tokens, or `None` where
/// the quoting is malformed.
pub uninterp spec fn split_of(s: Seq<char>) -> Option<Seq<Seq<char>>>;

/// A line with its leading and trailing white space removed.
pub uninterp spec fn trimmed_of(s: Seq<char>) -> Seq<char>;

/// Relies on `shlex::split`: splits a line into shell-like tokens, or gives
/// `None` on malformed quoting.
#[verifier::external_body]
fn shell_split(s: &Vec<char>) -> (r: Option<Vec<Vec<char>>>)
    ensures
        r.is_none() == split_of(s@).is_none(),
        r.is_some() ==> views(r->0@) == split_of(s@)->0,
{
    let line: String = s.iter().collect();
    shlex::split(&line).map(|v| v.into_iter().map(|t| t.chars().collect()).collect())
}

/// Relies on `str::trim`: removes leading and trailing white space.
#[verifier::external_body]
fn trim_line(s: &Vec<char>) -> (r: Vec<char>)
    ensures
        r@ == trimmed_of(s@),
{
    let line: String = s.iter().collect();
    line.trim().chars().collect()
}

/// The commands of the engine itself, matched before any user command.
#[derive(Debug, PartialEq, Eq, Structural, Clone, Copy)]
pub enum Builtin {
    /// `exit`, `logout` or `quit`: end the session.
    Exit,
    /// `clear`: clear the screen.
    ClearScreen,
    /// `history`: show the history.
    ShowHistory,
    /// `history session`: show the history of this session.
    ShowSessionHistory,
    /// `history sessionid`: show the session id.
    ShowSessionId,
    /// `toggle history_session`: flip the session filter of the history.
    ToggleSession,
    /// `clear-history`: clear the history.
    ClearHistory,
}

/// What a finished line asks for.
#[derive(Debug)]
pub enum Dispatch {
    Builtin(Builtin),
    /// Run the registered command `name` with `args`.
    Invoke { name: Vec<char>, args: Vec<Vec<char>> },
    /// Nothing to do: no tokens, or an unknown command.
    Ignore,
}

/// The built-in command that a trimmed line names, if any.
pub open spec fn builtin_of(t: Seq<char>) -> Option<Builtin> {
    if t == "exit"@ || t == "logout"@ || t == "quit"@ {
        Some(Builtin::Exit)
    } else if t == "clear"@ {
        Some(Builtin::ClearScreen)
    } else if t == "history"@ {
        Some(Builtin::ShowHistory)
    } else if t == "history session"@ {
        Some(Builtin::ShowSessionHistory)
    } else if t == "history sessionid"@ {
        Some(Builtin::ShowSessionId)
    } else if t == "toggle history_session"@ {
        Some(Builtin::ToggleSession)
    } else if t == "clear-history"@ {
        Some(Builtin::ClearHistory)
    } else {
        None
    }
}

/// Whether `d` is what the tokens `toks` ask for, given the registered names.
pub open spec fn resolves(
    d: Dispatch,
    toks: Option<Seq<Seq<char>>>,
    names: Seq<Seq<char>>,
) -> bool {
    match toks {
        Some(ts) if ts.len() > 0 && names.contains(ts[0]) => d is Invoke && d->name@ == ts[0]
            && views(d->args@) == ts.skip(1),
        _ => d is Ignore,
    }
}

/// The built-in command that a trimmed line names, if any.
pub fn match_builtin(t: &Vec<char>) -> (r: Option<Builtin>)
    ensures
        r == builtin_of(t@),
{
    proof {
        reveal_strlit("exit");
        reveal_strlit("logout");
        reveal_strlit("quit");
        reveal_strlit("clear");
        reveal_strlit("history");
        reveal_strlit("history session");
        reveal_strlit("history sessionid");
        reveal_strlit("toggle history_session");
        reveal_strlit("clear-history");
    }
    if is_word(t, "exit") || is_word(t, "logout") || is_word(t, "quit") {
        Some(Builtin::Exit)
    } else if is_word(t, "clear") {
        Some(Builtin::ClearScreen)
    } else if is_word(t, "history") {
        Some(Builtin::ShowHistory)
    } else if is_word(t, "history session") {
        Some(Builtin::ShowSessionHistory)
    } else if is_word(t, "history sessionid") {
        Some(Builtin::ShowSessionId)
    } else if is_word(t, "toggle history_session") {
        Some(Builtin::ToggleSession)
    } else if is_word(t, "clear-history") {
        Some(Builtin::ClearHistory)
    } else {
        None
    }
}

/// Resolves split tokens against the registered command names: the first
/// token names the command and the rest are its arguments. Malformed quoting,
/// no tokens and unknown commands are all ignored.
pub fn resolve_tokens(toks: Option<Vec<Vec<char>>>, names: &Vec<Vec<char>>) -> (r: Dispatch)
    ensures
        resolves(
            r,
            match toks {
                Some(v) => Some(views(v@)),
                None => None,
            },
            views(names@),
        ),
{
    match toks {
        None => Dispatch::Ignore,
        Some(v) => {
            if v.len() == 0 {
                return Dispatch::Ignore;
            }
            assert(views(v@)[0] == v@[0]@);
            if !contains_chars(names, &v[0]) {
                return Dispatch::Ignore;
            }
            let name = copy_chars(&v[0]);
            let mut args: Vec<Vec<char>> = Vec::new();
            let mut i: usize = 1;
            while i < v.len()
                invariant
                    1 <= i <= v.len(),
                    views(args@) == views(v@).subrange(1, i as int),
                decreases v.len() - i,
            {
                let ghost before = args@;
                args.push(copy_chars(&v[i]));
                assert(views(args@) =~= views(before).push(views(v@)[i as int]));
                i = i + 1;
                assert(views(args@) =~= views(v@).subrange(1, i as int));
            }
            assert(views(v@).subrange(1, v.len() as int) =~= views(v@).skip(1));
            Dispatch::Invoke { name, args }
        },
    }
}

/// Whether `d` is what `line` asks for: the built-in commands by exact match
/// on the trimmed line, then the registered commands by shell-style tokens.
pub open spec fn dispatched(d: Dispatch, line: Seq<char>, names: Seq<Seq<char>>) -> bool {
    let t = trimmed_of(line);
    match builtin_of(t) {
        Some(b) => d is Builtin && d->Builtin_0 == b,
        None => resolves(d, split_of(t), names),
    }
}

/// Decides what a finished line asks for: the built-in commands by exact
/// match on the trimmed line, then the registered commands by shell-style
/// tokens.
pub fn dispatch_line(line: &Vec<char>, names: &Vec<Vec<char>>) -> (r: Dispatch)
    ensures
        dispatched(r, line@, views(names@)),
{
    let t = trim_line(line);
    match match_builtin(&t) {
        Some(b) => Dispatch::Builtin(b),
        None => resolve_tokens(shell_split(&t), names),
    }
}

} // verus!
