//! Low-level text building blocks: decimal rendering of integers, the label
//! value escape, and verified helpers that append text to a character buffer.

use vstd::prelude::*;

verus! {

// ---------------------------------------------------------------------------
// Decimal rendering
// ---------------------------------------------------------------------------

pub open spec fn dec_digit(d: nat) -> char {
    if d == 0 {
        '0'
    } else if d == 1 {
        '1'
    } else if d == 2 {
        '2'
    } else if d == 3 {
        '3'
    } else if d == 4 {
        '4'
    } else if d == 5 {
        '5'
    } else if d == 6 {
        '6'
    } else if d == 7 {
        '7'
    } else if d == 8 {
        '8'
    } else {
        '9'
    }
}

/// The usual decimal form of a natural number: no sign, no leading zeros
/// (except for zero itself).
pub open spec fn dec_u64_text(n: nat) -> Seq<char>
    decreases n,
{
    if n < 10 {
        seq![dec_digit(n)]
    } else {
        dec_u64_text(n / 10) + seq![dec_digit(n % 10)]
    }
}

/// The decimal form of an integer: a leading minus sign when negative.
pub open spec fn dec_i64_text(n: int) -> Seq<char> {
    if n >= 0 {
        dec_u64_text(n as nat)
    } else {
        seq!['-'] + dec_u64_text((-n) as nat)
    }
}

fn digit_char(d: u64) -> (c: char)
    requires
        d < 10,
    ensures
        c == dec_digit(d as nat),
{
    if d == 0 {
        '0'
    } else if d == 1 {
        '1'
    } else if d == 2 {
        '2'
    } else if d == 3 {
        '3'
    } else if d == 4 {
        '4'
    } else if d == 5 {
        '5'
    } else if d == 6 {
        '6'
    } else if d == 7 {
        '7'
    } else if d == 8 {
        '8'
    } else {
        '9'
    }
}

/// Appends the decimal form of `n` to `buf`.
pub(crate) fn push_u64_text(buf: &mut Vec<char>, n: u64)
    ensures
        final(buf)@ == old(buf)@ + dec_u64_text(n as nat),
    decreases n,
{
    if n < 10 {
        let c = digit_char(n);
        buf.push(c);
        assert(buf@ =~= old(buf)@ + dec_u64_text(n as nat));
    } else {
        push_u64_text(buf, n / 10);
        let c = digit_char(n % 10);
        buf.push(c);
        assert(buf@ =~= old(buf)@ + dec_u64_text(n as nat));
    }
}

/// Appends the decimal form of `n` to `buf`, with a minus sign when negative.
pub(crate) fn push_i64_text(buf: &mut Vec<char>, n: i64)
    ensures
        final(buf)@ == old(buf)@ + dec_i64_text(n as int),
{
    if n >= 0 {
        push_u64_text(buf, n as u64);
    } else {
        buf.push('-');
        let m: u64 = if n == i64::MIN {
            9223372036854775808
        } else {
            (-n) as u64
        };
        assert(m as nat == (-(n as int)) as nat);
        push_u64_text(buf, m);
        assert(buf@ =~= old(buf)@ + dec_i64_text(n as int));
    }
}

// ---------------------------------------------------------------------------
// Label value escaping
// ---------------------------------------------------------------------------

/// How one character of a label value is rendered: backslash, newline and
/// double quote become two-character escapes, everything else passes through.
pub open spec fn escape_char(c: char) -> Seq<char> {
    if c == '\\' {
        seq!['\\', '\\']
    } else if c == '\n' {
        seq!['\\', 'n']
    } else if c == '"' {
        seq!['\\', '"']
    } else {
        seq![c]
    }
}

pub open spec fn escape_text(s: Seq<char>) -> Seq<char>
    decreases s.len(),
{
    if s.len() == 0 {
        Seq::empty()
    } else {
        escape_char(s[0]) + escape_text(s.skip(1))
    }
}

proof fn lemma_escape_text_push(s: Seq<char>, c: char)
    ensures
        escape_text(s.push(c)) == escape_text(s) + escape_char(c),
    decreases s.len(),
{
    if s.len() == 0 {
        assert(s.push(c)[0] == c);
        assert(s.push(c).skip(1) =~= Seq::<char>::empty());
        assert(escape_text(Seq::<char>::empty()) == Seq::<char>::empty());
        assert(escape_text(s.push(c)) == escape_char(c) + escape_text(s.push(c).skip(1)));
        assert(escape_text(s.push(c)) =~= escape_text(s) + escape_char(c));
    } else {
        assert(s.push(c)[0] == s[0]);
        assert(s.push(c).skip(1) =~= s.skip(1).push(c));
        lemma_escape_text_push(s.skip(1), c);
        assert(escape_text(s.push(c)) =~= escape_text(s) + escape_char(c));
    }
}

/// Appends the escaped form of the label value `v` to `buf`.
pub(crate) fn push_escaped(buf: &mut Vec<char>, v: &str)
    ensures
        final(buf)@ == old(buf)@ + escape_text(v@),
{
    let ghost buf0 = buf@;
    let n = v.unicode_len();
    let mut i: usize = 0;
    while i < n
        invariant
            i <= n,
            n == v@.len(),
            buf@ == buf0 + escape_text(v@.take(i as int)),
        decreases n - i,
    {
        let c = v.get_char(i);
        if c == '\\' {
            buf.push('\\');
            buf.push('\\');
        } else if c == '\n' {
            buf.push('\\');
            buf.push('n');
        } else if c == '"' {
            buf.push('\\');
            buf.push('"');
        } else {
            buf.push(c);
        }
        proof {
            lemma_escape_text_push(v@.take(i as int), c);
            assert(v@.take(i + 1) =~= v@.take(i as int).push(c));
            assert(buf@ =~= buf0 + escape_text(v@.take(i + 1)));
        }
        i += 1;
    }
    assert(v@.take(n as int) =~= v@);
}

// ---------------------------------------------------------------------------
// Appending plain text
// ---------------------------------------------------------------------------

/// Appends the characters of `s` to `buf`, unchanged.
pub(crate) fn push_str_text(buf: &mut Vec<char>, s: &str)
    ensures
        final(buf)@ == old(buf)@ + s@,
{
    let ghost buf0 = buf@;
    let n = s.unicode_len();
    let mut i: usize = 0;
    while i < n
        invariant
            i <= n,
            n == s@.len(),
            buf@ == buf0 + s@.take(i as int),
        decreases n - i,
    {
        let c = s.get_char(i);
        buf.push(c);
        proof {
            assert(s@.take(i + 1) =~= s@.take(i as int).push(c));
            assert(buf@ =~= buf0 + s@.take(i + 1));
        }
        i += 1;
    }
    assert(s@.take(n as int) =~= s@);
}

} // verus!
