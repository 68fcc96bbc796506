//! The lines of the run history that the application keeps on disk.

use vstd::prelude::*;
use crate::powershell::{PsRequest, run_ps, DEFAULT_TIMEOUT_SECS};
use crate::scripts::TIMESTAMP_SCRIPT;
use crate::text::{push_chars, trim, trim_chars, chars_of};

verus! {

/// The run that prints the local time for a history line.
pub fn timestamp_request() -> (r: PsRequest)
    ensures
        r@ == (TIMESTAMP_SCRIPT@, DEFAULT_TIMEOUT_SECS),
{
    run_ps(TIMESTAMP_SCRIPT)
}

/// The history line for the event `text` at the time `ts` printed: the
/// trimmed time in square brackets, a space, the text and a line break.
pub open spec fn history_line_spec(ts: Seq<char>, text: Seq<char>) -> Seq<char> {
    seq!['['] + trim(ts) + seq![']', ' '] + text + seq!['\n']
}

/// The history line for the event `text` at the time `ts` printed.
pub fn history_line(ts: &str, text: &str) -> (r: String)
    ensures
        r@ == history_line_spec(ts@, text@),
{
    let t = trim_chars(&chars_of(ts));
    let mut s = String::new();
    push_chars(&mut s, &vec!['[']);
    push_chars(&mut s, &t);
    push_chars(&mut s, &vec![']', ' ']);
    s.append(text);
    push_chars(&mut s, &vec!['\n']);
    assert(s@ =~= history_line_spec(ts@, text@));
    s
}

/// A history line is the trimmed time in square brackets, a space, the
/// event's text unchanged, and a line break: nothing else.
pub proof fn law_history_line_shape(ts: Seq<char>, text: Seq<char>)
    ensures
        ({
            let line = history_line_spec(ts, text);
            let n = trim(ts).len() as int;
            &&& line.len() == n + text.len() + 4
            &&& line[0] == '['
            &&& line.subrange(1, n + 1) == trim(ts)
            &&& line[n + 1] == ']'
            &&& line[n + 2] == ' '
            &&& line.subrange(n + 3, n + 3 + text.len()) == text
            &&& line.last() == '\n'
        }),
{
    let line = history_line_spec(ts, text);
    let n = trim(ts).len() as int;
    assert(line.subrange(1, n + 1) =~= trim(ts));
    assert(line.subrange(n + 3, n + 3 + text.len()) =~= text);
}

} // verus!
