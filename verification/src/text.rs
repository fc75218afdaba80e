//! Text for a terminal in raw mode.

use vstd::prelude::*;

verus! {

/// `String::push`: the string grows by the one character.
#[verifier::external_body]
pub(crate) fn push_char(f: &mut String, c: char)
    ensures
        final(f)@ == old(f)@.push(c),
{
    f.push(c);
}

/// A text with the line endings of a terminal in raw mode: a carriage return
/// stands before every line feed.
pub open spec fn line_breaks(text: Seq<char>) -> Seq<char>
    decreases text.len(),
{
    if text.len() == 0 {
        Seq::empty()
    } else if text.last() == '\n' {
        line_breaks(text.drop_last()).push('\r').push('\n')
    } else {
        line_breaks(text.drop_last()).push(text.last())
    }
}

/// Give every line feed of a text the carriage return that a terminal in raw
/// mode needs before it.
pub fn terminal_lines(text: &str) -> (frame: String)
    ensures
        frame@ == line_breaks(text@),
{
    broadcast use vstd::string::group_string_axioms;

    let mut frame = String::new();
    let chars = text.chars();
    for c in it: chars
        invariant
            it.seq() == text@,
            frame@ == line_breaks(text@.take(it.index())),
    {
        proof {
            let read = text@.take(it.index() + 1);
            assert(read.drop_last() == text@.take(it.index()));
        }
        if c == '\n' {
            push_char(&mut frame, '\r');
        }
        push_char(&mut frame, c);
    }
    assert(text@.take(text@.len() as int) == text@);
    frame
}

} // verus!
