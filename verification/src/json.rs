//! JSON text as `serde_json` writes it: string escaping and compact objects.

use vstd::prelude::*;
use crate::text::{chars_of, hex_digit, push_char, push_hex_digit};

verus! {

broadcast use vstd::string::group_string_axioms;

/// How one character is written inside a JSON string: `"` and `\` and the
/// control characters below U+0020 are escaped (short forms for backspace,
/// tab, line feed, form feed and carriage return, `\u00XX` with lower-case
/// hex digits for the others); every other character is written as is.
pub open spec fn json_escape(c: char) -> Seq<char> {
    let u = c as u32;
    if c == '"' {
        seq!['\\', '"']
    } else if c == '\\' {
        seq!['\\', '\\']
    } else if u == 8 {
        seq!['\\', 'b']
    } else if u == 9 {
        seq!['\\', 't']
    } else if u == 10 {
        seq!['\\', 'n']
    } else if u == 12 {
        seq!['\\', 'f']
    } else if u == 13 {
        seq!['\\', 'r']
    } else if u < 0x20 {
        seq!['\\', 'u', '0', '0', hex_digit((u / 16) as nat), hex_digit((u % 16) as nat)]
    } else {
        seq![c]
    }
}

/// The escaped body of a JSON string holding `s`.
pub open spec fn json_escaped(s: Seq<char>) -> Seq<char>
    decreases s.len(),
{
    if s.len() == 0 {
        Seq::<char>::empty()
    } else {
        json_escaped(s.drop_last()) + json_escape(s.last())
    }
}

/// The JSON string literal for `s`.
pub open spec fn json_string(s: Seq<char>) -> Seq<char> {
    seq!['"'] + json_escaped(s) + seq!['"']
}

fn push_escaped_char(out: &mut String, c: char)
    ensures
        final(out)@ == old(out)@ + json_escape(c),
{
    let u = c as u32;
    if c == '"' {
        push_char(out, '\\');
        push_char(out, '"');
    } else if c == '\\' {
        push_char(out, '\\');
        push_char(out, '\\');
    } else if u == 8 {
        push_char(out, '\\');
        push_char(out, 'b');
    } else if u == 9 {
        push_char(out, '\\');
        push_char(out, 't');
    } else if u == 10 {
        push_char(out, '\\');
        push_char(out, 'n');
    } else if u == 12 {
        push_char(out, '\\');
        push_char(out, 'f');
    } else if u == 13 {
        push_char(out, '\\');
        push_char(out, 'r');
    } else if u < 0x20 {
        push_char(out, '\\');
        push_char(out, 'u');
        push_char(out, '0');
        push_char(out, '0');
        push_hex_digit(out, (u / 16) as u8);
        push_hex_digit(out, (u % 16) as u8);
    } else {
        push_char(out, c);
    }
    assert(final(out)@ =~= old(out)@ + json_escape(c));
}

/// Appends the JSON string literal for `s` to `out`.
pub fn push_json_string(out: &mut String, s: &str)
    ensures
        final(out)@ == old(out)@ + json_string(s@),
{
    let v = chars_of(s);
    push_char(out, '"');
    let ghost start = out@;
    let mut i: usize = 0;
    while i < v.len()
        invariant
            i <= v@.len(),
            v@ == s@,
            start == old(out)@.push('"'),
            out@ == start + json_escaped(v@.take(i as int)),
        decreases v@.len() - i,
    {
        assert(v@.take(i + 1).drop_last() == v@.take(i as int));
        push_escaped_char(out, v[i]);
        i = i + 1;
    }
    assert(v@.take(v@.len() as int) == v@);
    push_char(out, '"');
    assert(final(out)@ =~= old(out)@ + json_string(s@));
}

// ----------------------------------------------------------------------------
// Reading a JSON string literal: where it ends
// ----------------------------------------------------------------------------

/// Where a reader of the body of a JSON string literal stands: inside the
/// string, just after a backslash, or past the closing quote.
#[derive(Clone, Copy, PartialEq, Eq, Structural)]
pub enum StrScan {
    Open,
    Escape,
    Closed,
}

/// One character read in the body of a JSON string literal.
pub open spec fn str_step(st: StrScan, c: char) -> StrScan {
    match st {
        StrScan::Open => if c == '"' {
            StrScan::Closed
        } else if c == '\\' {
            StrScan::Escape
        } else {
            StrScan::Open
        },
        StrScan::Escape => StrScan::Open,
        StrScan::Closed => StrScan::Closed,
    }
}

/// The characters `q` read one after the other from state `st`.
pub open spec fn str_run(st: StrScan, q: Seq<char>) -> StrScan
    decreases q.len(),
{
    if q.len() == 0 {
        st
    } else {
        str_step(str_run(st, q.drop_last()), q.last())
    }
}

/// Reading `a` then `b` is reading `a + b`.
pub proof fn lemma_str_run_concat(st: StrScan, a: Seq<char>, b: Seq<char>)
    ensures
        str_run(st, a + b) == str_run(str_run(st, a), b),
    decreases b.len(),
{
    if b.len() == 0 {
        assert(a + b =~= a);
    } else {
        lemma_str_run_concat(st, a, b.drop_last());
        assert((a + b).drop_last() =~= a + b.drop_last());
        assert((a + b).last() == b.last());
    }
}

/// Once past the closing quote, the reader stays there.
pub proof fn lemma_str_run_closed(q: Seq<char>)
    ensures
        str_run(StrScan::Closed, q) == StrScan::Closed,
    decreases q.len(),
{
    if q.len() > 0 {
        lemma_str_run_closed(q.drop_last());
    }
}

/// Reading an escaped character leaves the reader inside the string.
proof fn lemma_escape_keeps_open(c: char)
    ensures
        str_run(StrScan::Open, json_escape(c)) == StrScan::Open,
{
    reveal_with_fuel(str_run, 7);
    let e = json_escape(c);
    let u = c as u32;
    if c == '"' || c == '\\' || u == 8 || u == 9 || u == 10 || u == 12 || u == 13 {
        assert(e.len() == 2 && e[0] == '\\');
        assert(e.drop_last().drop_last() =~= Seq::<char>::empty());
    } else if u < 0x20 {
        let d1 = hex_digit((u / 16) as nat);
        let d2 = hex_digit((u % 16) as nat);
        assert(d1 != '"' && d1 != '\\');
        assert(d2 != '"' && d2 != '\\');
        assert(e.drop_last().drop_last().drop_last().drop_last().drop_last().drop_last()
            =~= Seq::<char>::empty());
    } else {
        assert(e.drop_last() =~= Seq::<char>::empty());
    }
}

/// Reading the escaped body of a JSON string leaves the reader inside it.
pub proof fn lemma_escaped_keeps_open(s: Seq<char>)
    ensures
        str_run(StrScan::Open, json_escaped(s)) == StrScan::Open,
    decreases s.len(),
{
    if s.len() > 0 {
        lemma_escaped_keeps_open(s.drop_last());
        lemma_str_run_concat(StrScan::Open, json_escaped(s.drop_last()), json_escape(s.last()));
        lemma_escape_keeps_open(s.last());
    }
}

/// The literal starting at `start` in `p` (just after its opening quote)
/// closes at position `j`: `p[j]` is its closing quote.
pub open spec fn string_close_at(p: Seq<char>, start: int, j: int) -> bool {
    &&& 0 <= start <= j < p.len()
    &&& str_run(StrScan::Open, p.subrange(start, j)) != StrScan::Closed
    &&& str_run(StrScan::Open, p.subrange(start, j + 1)) == StrScan::Closed
}

/// A literal closes at one position at most.
pub proof fn lemma_string_close_unique(p: Seq<char>, start: int, j: int, k: int)
    requires
        string_close_at(p, start, j),
        string_close_at(p, start, k),
    ensures
        j == k,
{
    if j < k {
        lemma_str_run_concat(
            StrScan::Open,
            p.subrange(start, j + 1),
            p.subrange(j + 1, k),
        );
        assert(p.subrange(start, j + 1) + p.subrange(j + 1, k) =~= p.subrange(start, k));
        lemma_str_run_closed(p.subrange(j + 1, k));
    } else if k < j {
        lemma_str_run_concat(
            StrScan::Open,
            p.subrange(start, k + 1),
            p.subrange(k + 1, j),
        );
        assert(p.subrange(start, k + 1) + p.subrange(k + 1, j) =~= p.subrange(start, j));
        lemma_str_run_closed(p.subrange(k + 1, j));
    }
}

/// Position of the closing quote of the literal whose body starts at
/// `start` in `v`, if it closes.
pub fn string_close(v: &Vec<char>, start: usize) -> (r: Option<usize>)
    requires
        start <= v@.len(),
    ensures
        match r {
            Some(j) => string_close_at(v@, start as int, j as int),
            None => forall|j: int| !string_close_at(v@, start as int, j),
        },
{
    let mut st = StrScan::Open;
    let mut i: usize = start;
    assert(v@.subrange(start as int, start as int) =~= Seq::<char>::empty());
    while i < v.len()
        invariant
            start <= i <= v@.len(),
            st != StrScan::Closed,
            st == str_run(StrScan::Open, v@.subrange(start as int, i as int)),
            forall|j: int| start <= j < i ==> !string_close_at(v@, start as int, j),
        decreases v@.len() - i,
    {
        let c = v[i];
        assert(v@.subrange(start as int, i + 1).drop_last() =~= v@.subrange(start as int, i as int));
        assert(v@.subrange(start as int, i + 1).last() == c);
        let next = match st {
            StrScan::Open => if c == '"' {
                StrScan::Closed
            } else if c == '\\' {
                StrScan::Escape
            } else {
                StrScan::Open
            },
            StrScan::Escape => StrScan::Open,
            StrScan::Closed => StrScan::Closed,
        };
        assert(next == str_run(StrScan::Open, v@.subrange(start as int, i + 1)));
        if next == StrScan::Closed {
            assert(string_close_at(v@, start as int, i as int));
            return Some(i);
        }
        st = next;
        i = i + 1;
    }
    None
}

} // verus!
