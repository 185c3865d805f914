//! Reading a line typed at the interactive prompt.

use vstd::prelude::*;
use crate::router::{trim, trimmed};

verus! {

/// What a typed line asks for.
#[derive(Debug, Clone, Copy, PartialEq, Eq, Structural)]
pub enum InputKind {
    /// Nothing but white space: ask again.
    Empty,
    /// `exit` or `quit`, in any case: end the session.
    Exit,
    /// A prompt to answer.
    Prompt,
}

/// A character with ASCII upper case mapped to lower case.
pub open spec fn ascii_fold(c: char) -> u32 {
    if 'A' <= c && c <= 'Z' {
        (c as u32 + 32) as u32
    } else {
        c as u32
    }
}

/// Whether two texts are equal when ASCII letters are compared without
/// regard to case.
pub open spec fn eq_ascii_folded(a: Seq<char>, b: Seq<char>) -> bool {
    a.len() == b.len() && forall|i: int| 0 <= i < a.len() ==> ascii_fold(#[trigger] a[i])
        == ascii_fold(b[i])
}

/// Relies on `str::eq_ignore_ascii_case`: the two texts are equal once ASCII
/// upper-case letters are lowered.
#[verifier::external_body]
fn eq_ignore_ascii_case(a: &str, b: &str) -> (r: bool)
    ensures
        r == eq_ascii_folded(a@, b@),
{
    a.eq_ignore_ascii_case(b)
}

/// What a line asks for, once trimmed.
pub open spec fn input_kind(t: Seq<char>) -> InputKind {
    if t.len() == 0 {
        InputKind::Empty
    } else if eq_ascii_folded(t, "exit"@) || eq_ascii_folded(t, "quit"@) {
        InputKind::Exit
    } else {
        InputKind::Prompt
    }
}

/// Reads a typed line: the line without surrounding white space, and what it
/// asks for.
pub fn read_input(line: &str) -> (r: (InputKind, &str))
    ensures
        r.1@ == trimmed(line@),
        r.0 == input_kind(trimmed(line@)),
{
    let t = trim(line);
    let kind = if t.is_empty() {
        InputKind::Empty
    } else if eq_ignore_ascii_case(t, "exit") || eq_ignore_ascii_case(t, "quit") {
        InputKind::Exit
    } else {
        InputKind::Prompt
    };
    (kind, t)
}

} // verus!
