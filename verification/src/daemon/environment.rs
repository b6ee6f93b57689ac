//! The environment of the graphical session, as a listing of assignments.

use crate::text;
use vstd::prelude::*;

verus! {

/// The lines of a text. A line ends at a line feed, or at a carriage return and a line feed;
/// the end of the last line may be missing.
pub open spec fn text_lines(text: Seq<char>) -> Seq<Seq<char>>
    decreases text.len(),
{
    if text.len() == 0 {
        Seq::empty()
    } else {
        let n = first_break(text);
        if 0 <= n < text.len() {
            seq![without_return(text.take(n))] + text_lines(text.skip(n + 1))
        } else {
            seq![text]
        }
    }
}

/// The place of the first line feed; the length where there is none.
pub open spec fn first_break(text: Seq<char>) -> int {
    first_char(text, '\n')
}

/// The place of the first such character; the length where there is none.
pub open spec fn first_char(text: Seq<char>, c: char) -> int
    decreases text.len(),
{
    if text.len() == 0 || text[0] == c {
        0
    } else {
        1 + first_char(text.skip(1), c)
    }
}

/// A line without the carriage return at its end.
pub open spec fn without_return(line: Seq<char>) -> Seq<char> {
    if line.len() > 0 && line.last() == '\r' {
        line.drop_last()
    } else {
        line
    }
}

/// What a line assigns: what stands before and after its first `=`; nothing without one.
pub open spec fn assignment(line: Seq<char>) -> Option<(Seq<char>, Seq<char>)> {
    let n = first_char(line, '=');
    if n < line.len() {
        Some((line.take(n), line.skip(n + 1)))
    } else {
        None
    }
}

/// The assignments of lines, in order; other lines are passed over.
pub open spec fn assignments(lines: Seq<Seq<char>>) -> Seq<(Seq<char>, Seq<char>)>
    decreases lines.len(),
{
    if lines.len() == 0 {
        Seq::empty()
    } else {
        let rest = assignments(lines.skip(1));
        match assignment(lines[0]) {
            Some(a) => seq![a] + rest,
            None => rest,
        }
    }
}

proof fn first_char_bounds(text: Seq<char>, c: char)
    ensures
        0 <= first_char(text, c) <= text.len(),
        first_char(text, c) < text.len() ==> text[first_char(text, c)] == c,
        forall|i: int| 0 <= i < first_char(text, c) ==> #[trigger] text[i] != c,
    decreases text.len(),
{
    if text.len() > 0 && text[0] != c {
        let rest = text.skip(1);
        first_char_bounds(rest, c);
        assert forall|i: int| 0 <= i < first_char(text, c) implies #[trigger] text[i] != c by {
            if i > 0 {
                assert(text[i] == rest[i - 1]);
            }
        }
    }
}

proof fn first_char_is(text: Seq<char>, c: char, n: int)
    requires
        0 <= n <= text.len(),
        forall|i: int| 0 <= i < n ==> #[trigger] text[i] != c,
        n < text.len() ==> text[n] == c,
    ensures
        first_char(text, c) == n,
{
    first_char_bounds(text, c);
    let m = first_char(text, c);
    if m < n {
        assert(text[m] != c);
    }
    if n < m {
        assert(text[n] != c);
    }
}

fn find(chars: &Vec<char>, from: usize, to: usize, c: char) -> (at: usize)
    requires
        from <= to <= chars@.len(),
    ensures
        from <= at <= to,
        at - from == first_char(chars@.subrange(from as int, to as int), c),
{
    let ghost part = chars@.subrange(from as int, to as int);
    let mut i: usize = from;
    while i < to
        invariant
            from <= i <= to <= chars@.len(),
            part == chars@.subrange(from as int, to as int),
            forall|k: int| 0 <= k < i - from ==> #[trigger] part[k] != c,
        decreases to - i,
    {
        assert(part[i - from] == chars@[i as int]);
        if chars[i] == c {
            proof {
                first_char_is(part, c, i - from);
            }
            return i;
        }
        i = i + 1;
    }
    proof {
        first_char_is(part, c, to - from);
    }
    to
}

/// Pairs of texts.
pub open spec fn pairs(list: Seq<(String, String)>) -> Seq<(Seq<char>, Seq<char>)> {
    list.map_values(|p: (String, String)| (p.0@, p.1@))
}

fn push_assignment(out: &mut Vec<(String, String)>, chars: &Vec<char>, from: usize, to: usize)
    requires
        from <= to <= chars@.len(),
    ensures
        pairs(final(out)@) == pairs(old(out)@) + (match assignment(
            chars@.subrange(from as int, to as int),
        ) {
            Some(a) => seq![a],
            None => Seq::empty(),
        }),
{
    let at = find(chars, from, to, '=');
    let ghost line = chars@.subrange(from as int, to as int);
    if at < to {
        let key = text::text_of(chars, from, at);
        let value = text::text_of(chars, at + 1, to);
        proof {
            assert(key@ =~= line.take(at - from));
            assert(value@ =~= line.skip(at - from + 1));
        }
        out.push((key, value));
        assert(pairs(out@) =~= pairs(old(out)@) + seq![assignment(line)->0]);
    } else {
        assert(pairs(out@) =~= pairs(old(out)@) + Seq::<(Seq<char>, Seq<char>)>::empty());
    }
}

/// The assignments that a listing holds, one to a line. Lines that assign nothing are passed
/// over.
pub fn parse_environment(listing: &str) -> (out: Vec<(String, String)>)
    ensures
        pairs(out@) == assignments(text_lines(listing@)),
{
    let chars = text::chars_of(listing);
    let mut out: Vec<(String, String)> = Vec::new();
    let mut from: usize = 0;
    let ghost all = assignments(text_lines(listing@));
    assert(chars@.skip(0) =~= chars@);
    assert(pairs(out@) + all =~= all);
    while from < chars.len()
        invariant
            from <= chars@.len(),
            chars@ == listing@,
            all == pairs(out@) + assignments(text_lines(chars@.skip(from as int))),
        decreases chars.len() - from,
    {
        let n: usize = chars.len();
        let ghost rest = chars@.skip(from as int);
        assert(rest =~= chars@.subrange(from as int, n as int));
        let at = find(&chars, from, n, '\n');
        let ghost before = pairs(out@);
        if at < n {
            let end: usize = if at > from && chars[at - 1] == '\r' {
                at - 1
            } else {
                at
            };
            proof {
                let line = rest.take(at - from);
                assert(line.len() > 0 ==> line.last() == chars@[at - 1]);
                assert(chars@.subrange(from as int, end as int) =~= without_return(line));
                let tail = rest.skip(at - from + 1);
                assert(tail =~= chars@.skip(at as int + 1));
                let lines = text_lines(rest);
                assert(lines.skip(1) =~= text_lines(tail));
                assert(lines[0] == without_return(line));
            }
            push_assignment(&mut out, &chars, from, end);
            assert(all =~= pairs(out@) + assignments(text_lines(chars@.skip(at as int + 1))));
            from = at + 1;
        } else {
            proof {
                let lines = text_lines(rest);
                assert(lines.skip(1) =~= Seq::<Seq<char>>::empty());
                assert(lines[0] == rest);
                assert(chars@.skip(n as int) =~= Seq::<char>::empty());
            }
            push_assignment(&mut out, &chars, from, n);
            assert(all =~= pairs(out@) + assignments(text_lines(chars@.skip(n as int))));
            from = n;
        }
    }
    assert(chars@.skip(from as int) =~= Seq::<char>::empty());
    assert(all =~= pairs(out@));
    out
}

} // verus!
