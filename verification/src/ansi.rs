//! Escape sequences: which characters of a text a terminal shows, and the
//! control sequences that the styles write.

use crate::text::push_char;
use vstd::prelude::*;

verus! {

/// The character that opens an escape sequence.
pub const ESC: char = '\x1b';

/// Whether a reader that was inside an escape sequence (`inside`) or outside one
/// is inside one after reading `s`.
///
/// `ESC` opens a sequence wherever it stands; the next `m` closes it.
pub open spec fn escaped_after(inside: bool, s: Seq<char>) -> bool
    decreases s.len(),
{
    if s.len() == 0 {
        inside
    } else {
        let before = escaped_after(inside, s.drop_last());
        if s.last() == ESC {
            true
        } else if before && s.last() == 'm' {
            false
        } else {
            before
        }
    }
}

/// The number of characters of `s` that a terminal shows: those that are not `ESC`
/// and are read outside an escape sequence.
pub open spec fn visible_from(inside: bool, s: Seq<char>) -> nat
    decreases s.len(),
{
    if s.len() == 0 {
        0
    } else {
        let shown: nat = if s.last() != ESC && !escaped_after(inside, s.drop_last()) {
            1
        } else {
            0
        };
        visible_from(inside, s.drop_last()) + shown
    }
}

/// The visible length of a whole text, read from outside any escape sequence.
pub open spec fn visible_len(s: Seq<char>) -> nat {
    visible_from(false, s)
}

/// An escape sequence: it starts with `ESC`, ends with `m`, and holds no `m` between.
pub open spec fn is_escape_sequence(s: Seq<char>) -> bool {
    &&& s.len() >= 2
    &&& s[0] == ESC
    &&& s.last() == 'm'
    &&& forall|i: int| 0 < i < s.len() - 1 ==> s[i] != 'm'
}

/// A text shows no more characters than it has.
pub proof fn lemma_visible_bounded(inside: bool, s: Seq<char>)
    ensures
        visible_from(inside, s) <= s.len(),
    decreases s.len(),
{
    if s.len() > 0 {
        lemma_visible_bounded(inside, s.drop_last());
    }
}

/// A text has no more characters than its UTF-8 encoding has bytes.
proof fn lemma_chars_fit_bytes(chars: Seq<char>)
    ensures
        chars.len() <= vstd::utf8::encode_utf8(chars).len(),
    decreases chars.len(),
{
    if chars.len() > 0 {
        lemma_chars_fit_bytes(chars.drop_first());
    }
}

/// The length of a string excluding the ANSI codes.
pub fn visible_length(input: &str) -> (length: usize)
    ensures
        length == visible_len(input@),
{
    broadcast use vstd::string::group_string_axioms;

    let bytes = input.as_bytes();
    proof {
        lemma_chars_fit_bytes(input@);
        assert(bytes@.len() == vstd::slice::spec_slice_len(bytes));
    }
    let mut in_escape_code = false;
    let mut length: usize = 0;
    let chars = input.chars();
    for c in it: chars
        invariant
            it.seq() == input@,
            input@.len() <= usize::MAX,
            in_escape_code == escaped_after(false, input@.take(it.index())),
            length == visible_from(false, input@.take(it.index())),
    {
        proof {
            let read = input@.take(it.index() + 1);
            assert(read.drop_last() == input@.take(it.index()));
            lemma_visible_bounded(false, input@.take(it.index()));
        }
        if c == ESC {
            in_escape_code = true;
        } else if in_escape_code {
            if c == 'm' {
                in_escape_code = false;
            }
        } else {
            length += 1;
        }
    }
    assert(input@.take(input@.len() as int) == input@);
    length
}

/// Reading `a` and then `b` is reading `a + b`.
pub proof fn lemma_read_concat(inside: bool, a: Seq<char>, b: Seq<char>)
    ensures
        escaped_after(inside, a + b) == escaped_after(escaped_after(inside, a), b),
        visible_from(inside, a + b) == visible_from(inside, a) + visible_from(
            escaped_after(inside, a),
            b,
        ),
    decreases b.len(),
{
    if b.len() > 0 {
        lemma_read_concat(inside, a, b.drop_last());
        assert((a + b).drop_last() == a + b.drop_last());
    }
}

/// A sequence that has been opened and holds no `m` stays open and shows nothing.
proof fn lemma_open_sequence(inside: bool, s: Seq<char>)
    requires
        s.len() >= 1,
        s[0] == ESC,
        forall|i: int| 0 < i < s.len() ==> s[i] != 'm',
    ensures
        escaped_after(inside, s),
        visible_from(inside, s) == 0,
    decreases s.len(),
{
    let front = s.drop_last();
    if s.len() == 1 {
        assert(visible_from(inside, front) == 0);
    } else {
        lemma_open_sequence(inside, front);
    }
}

/// An escape sequence shows nothing and leaves the reader outside, wherever it is read.
pub proof fn lemma_sequence_hidden(inside: bool, s: Seq<char>)
    requires
        is_escape_sequence(s),
    ensures
        !escaped_after(inside, s),
        visible_from(inside, s) == 0,
{
    lemma_open_sequence(inside, s.drop_last());
}

/// A text without `ESC`, read from outside, shows every character.
pub proof fn lemma_plain_visible(s: Seq<char>)
    requires
        forall|i: int| 0 <= i < s.len() ==> s[i] != ESC,
    ensures
        !escaped_after(false, s),
        visible_from(false, s) == s.len(),
    decreases s.len(),
{
    if s.len() > 0 {
        lemma_plain_visible(s.drop_last());
    }
}

/// An escape sequence adds nothing to the visible length of the text around it:
/// what stands before it and what stands after it are counted as if it were not there.
pub proof fn law_sequence_adds_nothing(before: Seq<char>, sequence: Seq<char>, after: Seq<char>)
    requires
        is_escape_sequence(sequence),
    ensures
        visible_len(before + sequence + after) == visible_len(before) + visible_len(after),
{
    lemma_read_concat(false, before, sequence);
    lemma_sequence_hidden(escaped_after(false, before), sequence);
    lemma_read_concat(false, before + sequence, after);
}

/// The character that stands for the decimal digit `d`.
pub open spec fn digit(d: nat) -> char
    recommends
        d < 10,
{
    if d == 0 {
        '0'
    } else if d == 1 {
        '1'
    } else if d == 2 {
        '2'
    } else if d == 3 {
        '3'
    } else if d == 4 {
        '4'
    } else if d == 5 {
        '5'
    } else if d == 6 {
        '6'
    } else if d == 7 {
        '7'
    } else if d == 8 {
        '8'
    } else {
        '9'
    }
}

/// `n` written in decimal, without leading zeros.
pub open spec fn decimal(n: nat) -> Seq<char>
    decreases n,
{
    if n < 10 {
        seq![digit(n)]
    } else {
        decimal(n / 10).push(digit(n % 10))
    }
}

/// The parameters of a control sequence: each in decimal, `;` between them.
pub open spec fn parameters(ps: Seq<u8>) -> Seq<char>
    decreases ps.len(),
{
    if ps.len() == 0 {
        Seq::empty()
    } else if ps.len() == 1 {
        decimal(ps[0] as nat)
    } else {
        parameters(ps.drop_last()).push(';') + decimal(ps.last() as nat)
    }
}

/// The "select graphic rendition" sequence with the parameters `ps`:
/// `ESC [`, the parameters, `m`.
pub open spec fn sgr(ps: Seq<u8>) -> Seq<char> {
    seq![ESC, '['] + parameters(ps) + seq!['m']
}

/// The character of a decimal digit.
fn digit_char(d: u8) -> (c: char)
    requires
        d < 10,
    ensures
        c == digit(d as nat),
{
    match d {
        0 => '0',
        1 => '1',
        2 => '2',
        3 => '3',
        4 => '4',
        5 => '5',
        6 => '6',
        7 => '7',
        8 => '8',
        _ => '9',
    }
}

/// Write `n` in decimal.
fn write_decimal(f: &mut String, n: u8)
    ensures
        final(f)@ == old(f)@ + decimal(n as nat),
{
    if n >= 100 {
        push_char(f, digit_char(n / 100));
    }
    if n >= 10 {
        push_char(f, digit_char((n / 10) % 10));
    }
    push_char(f, digit_char(n % 10));
    proof {
        let v = n as nat;
        if v >= 100 {
            assert(decimal(v / 100) == seq![digit(v / 100)]);
            assert(decimal(v / 10) == seq![digit(v / 100), digit((v / 10) % 10)]);
        } else if v >= 10 {
            assert(decimal(v / 10) == seq![digit(v / 10)]);
        }
    }
}

/// Write the control sequence with the parameters `ps`.
pub(crate) fn write_sgr(f: &mut String, ps: &[u8])
    ensures
        final(f)@ == old(f)@ + sgr(ps@),
{
    push_char(f, ESC);
    push_char(f, '[');
    let mut i: usize = 0;
    while i < ps.len()
        invariant
            i <= ps.len(),
            f@ == old(f)@ + seq![ESC, '['] + parameters(ps@.take(i as int)),
        decreases ps.len() - i,
    {
        if i > 0 {
            push_char(f, ';');
        }
        write_decimal(f, ps[i]);
        proof {
            let read = ps@.take(i + 1);
            assert(read.drop_last() == ps@.take(i as int));
        }
        i += 1;
    }
    push_char(f, 'm');
    assert(ps@.take(ps.len() as int) == ps@);
}

/// A number in decimal is made of digits, and of one at least.
proof fn lemma_decimal_digits(n: nat)
    ensures
        decimal(n).len() >= 1,
        forall|i: int| 0 <= i < decimal(n).len() ==> '0' <= #[trigger] decimal(n)[i] <= '9',
    decreases n,
{
    if n >= 10 {
        lemma_decimal_digits(n / 10);
    }
}

/// Among the parameters of a sequence there is no `m` and no `ESC`.
proof fn lemma_parameters_plain(ps: Seq<u8>)
    ensures
        forall|i: int|
            0 <= i < parameters(ps).len() ==> {
                let c = #[trigger] parameters(ps)[i];
                c != 'm' && c != ESC
            },
    decreases ps.len(),
{
    if ps.len() == 1 {
        lemma_decimal_digits(ps[0] as nat);
    } else if ps.len() > 1 {
        let front = parameters(ps.drop_last());
        let last = decimal(ps.last() as nat);
        lemma_parameters_plain(ps.drop_last());
        lemma_decimal_digits(ps.last() as nat);
        assert forall|i: int| 0 <= i < parameters(ps).len() implies {
            let c = #[trigger] parameters(ps)[i];
            c != 'm' && c != ESC
        } by {
            if i < front.len() {
                assert(parameters(ps)[i] == front[i]);
            } else if i > front.len() {
                assert(parameters(ps)[i] == last[i - front.len() - 1]);
            }
        }
    }
}

/// Every control sequence that this module writes is an escape sequence.
pub proof fn lemma_sgr_is_sequence(ps: Seq<u8>)
    ensures
        is_escape_sequence(sgr(ps)),
{
    lemma_parameters_plain(ps);
    let s = sgr(ps);
    assert forall|i: int| 0 < i < s.len() - 1 implies s[i] != 'm' by {
        if i >= 2 {
            assert(s[i] == parameters(ps)[i - 2]);
        }
    }
}

} // verus!
