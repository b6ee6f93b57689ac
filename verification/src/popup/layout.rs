//! How tall a pop-up is, and how much of its body it shows.

use crate::text;
use vstd::prelude::*;

verus! {

/// Above and below the content.
pub const CONTAINER_PAD_V: u32 = 20;

pub const CONTAINER_PAD_LEFT: u32 = 10;

pub const CONTAINER_PAD_RIGHT: u32 = 14;

pub const ACCENT_BAR_W: u32 = 4;

pub const ACCENT_GAP_W: u32 = 10;

pub const OUTER_SPACING: u32 = 4;

pub const INNER_SPACING: u32 = 4;

pub const HEADER_H: u32 = 18;

pub const SUMMARY_H: u32 = 18;

pub const BODY_LINE_H: u32 = 16;

pub const ACTION_SPACER_H: u32 = 2;

pub const ACTION_ROW_H: u32 = 24;

/// The width of a glyph, on average; rather too wide than too narrow.
pub const AVG_GLYPH_W: u32 = 7;

/// Characters that a line is taken to hold: what the width gives, and 20 at the least.
pub open spec fn chars_per_line(popup_width: u32) -> int {
    let region = if popup_width >= 38 {
        popup_width - 38
    } else {
        0
    };
    if region / 7 < 20 {
        20
    } else {
        region / 7
    }
}

/// Pixels that a pop-up takes besides its body.
pub open spec fn chrome_height(has_actions: bool) -> int {
    60 + if has_actions {
        34int
    } else {
        0int
    }
}

/// The lines of a text: what stands between its line feeds.
pub open spec fn lines(body: Seq<char>) -> Seq<Seq<char>>
    decreases body.len(),
{
    if body.len() == 0 {
        seq![Seq::empty()]
    } else if body.last() == '\n' {
        lines(body.drop_last()).push(Seq::empty())
    } else {
        let before = lines(body.drop_last());
        before.drop_last().push(before.last().push(body.last()))
    }
}

/// Lines on the screen that a line takes once wrapped.
pub open spec fn rows(line: Seq<char>, per_line: int) -> int {
    if line.len() == 0 {
        1
    } else {
        (line.len() + per_line - 1) / per_line
    }
}

/// Lines on the screen that all lines take once wrapped.
pub open spec fn total_rows(all: Seq<Seq<char>>, per_line: int) -> int
    decreases all.len(),
{
    if all.len() == 0 {
        0
    } else {
        total_rows(all.drop_last(), per_line) + rows(all.last(), per_line)
    }
}

/// Lines on the screen that a body takes; none for an empty one.
pub open spec fn body_rows(body: Seq<char>, per_line: int) -> int {
    if body.len() == 0 {
        0
    } else {
        total_rows(lines(body), per_line)
    }
}

/// The height that the content asks for.
pub open spec fn wanted_height(body: Seq<char>, has_actions: bool, popup_width: u32) -> int {
    let rows = body_rows(body, chars_per_line(popup_width));
    if rows > 0 {
        chrome_height(has_actions) + 4 + rows * 16
    } else {
        chrome_height(has_actions)
    }
}

/// The height that a pop-up gets: what the content asks for, within the limits. Where they
/// contradict each other the lower one counts.
pub open spec fn popup_height(
    body: Seq<char>,
    has_actions: bool,
    popup_width: u32,
    min_height: u32,
    max_height: u32,
) -> int {
    let wanted = wanted_height(body, has_actions, popup_width);
    let ceiling = if max_height < min_height {
        min_height as int
    } else {
        max_height as int
    };
    if wanted < min_height {
        min_height as int
    } else if wanted > ceiling {
        ceiling
    } else {
        wanted
    }
}

/// Lines of the body that fit in a height.
pub open spec fn fitting_rows(height: int, has_actions: bool) -> int {
    let budget = height - chrome_height(has_actions);
    if budget > 4 {
        (budget - 4) / 16
    } else {
        0
    }
}

/// Lines on the screen that the beginning of a body takes with an ellipsis behind it.
pub open spec fn cut_rows(body: Seq<char>, n: int, per_line: int) -> int {
    body_rows(body.take(n).push('…'), per_line)
}

/// The length of the longest beginning, of `n` characters at most, that fits with an ellipsis
/// behind it; 0 where none does.
pub open spec fn longest_cut(body: Seq<char>, n: int, per_line: int, fit: int) -> int
    decreases n,
{
    if n <= 0 {
        0
    } else if cut_rows(body, n, per_line) <= fit {
        n
    } else {
        longest_cut(body, n - 1, per_line, fit)
    }
}

/// The body as a pop-up of that height shows it: whole where it fits, otherwise as much of its
/// beginning as fits with an ellipsis behind it; nothing where no line fits.
pub open spec fn shown_body(body: Seq<char>, has_actions: bool, popup_width: u32, height: int) -> Seq<
    char,
> {
    let per_line = chars_per_line(popup_width);
    let fit = fitting_rows(height, has_actions);
    if body.len() == 0 || fit == 0 {
        Seq::empty()
    } else if body_rows(body, per_line) <= fit {
        body
    } else {
        body.take(longest_cut(body, body.len() - 1, per_line, fit)).push('…')
    }
}

proof fn lines_are_there(body: Seq<char>)
    ensures
        lines(body).len() > 0,
    decreases body.len(),
{
    if body.len() > 0 {
        lines_are_there(body.drop_last());
    }
}

fn rows_of(n: u128, per_line: u128, Ghost(line): Ghost<Seq<char>>) -> (r: u128)
    requires
        per_line > 0,
        line.len() == n,
    ensures
        r == rows(line, per_line as int),
        r <= n + 1,
        n > 0 ==> r <= n,
{
    if n == 0 {
        return 1;
    }
    let full: u128 = n / per_line;
    let rest: u128 = n % per_line;
    proof {
        let p = per_line as int;
        let m = n as int;
        vstd::arithmetic::div_mod::lemma_fundamental_div_mod(m, p);
        let q = m / p;
        let r = m % p;
        assert(q <= m) by (nonlinear_arith)
            requires
                p > 0,
                m > 0,
                m == p * q + r,
                0 <= r < p,
        ;
        if r == 0 {
            assert((m + p - 1) / p == q) by (nonlinear_arith)
                requires
                    p > 0,
                    m == p * q + r,
                    r == 0,
            ;
        } else {
            assert((m + p - 1) / p == q + 1) by (nonlinear_arith)
                requires
                    p > 0,
                    m == p * q + r,
                    0 < r < p,
            ;
            assert(q + 1 <= m) by (nonlinear_arith)
                requires
                    p > 0,
                    m == p * q + r,
                    0 < r < p,
                    q >= 0,
            ;
        }
    }
    if rest == 0 {
        full
    } else {
        full + 1
    }
}

fn count_rows(chars: &Vec<char>, per_line: u128) -> (total: u128)
    requires
        per_line > 0,
    ensures
        total == total_rows(lines(chars@), per_line as int),
        total <= chars@.len() + 1,
{
    let mut closed: u128 = 0;
    let mut current: u128 = 0;
    let mut i: usize = 0;
    proof {
        lines_are_there(chars@.take(0));
        assert(chars@.take(0) =~= Seq::<char>::empty());
        assert(lines(chars@.take(0)).drop_last() =~= Seq::<Seq<char>>::empty());
    }
    while i < chars.len()
        invariant
            i <= chars@.len(),
            per_line > 0,
            lines(chars@.take(i as int)).len() > 0,
            closed == total_rows(lines(chars@.take(i as int)).drop_last(), per_line as int),
            current == lines(chars@.take(i as int)).last().len(),
            closed + current <= i,
        decreases chars.len() - i,
    {
        let ghost before = lines(chars@.take(i as int));
        proof {
            assert(chars@.take(i as int + 1).drop_last() =~= chars@.take(i as int));
            assert(chars@.take(i as int + 1).last() == chars@[i as int]);
        }
        if chars[i] == '\n' {
            let r = rows_of(current, per_line, Ghost(before.last()));
            proof {
                let after = lines(chars@.take(i as int + 1));
                assert(after.drop_last() =~= before);
                assert(before.drop_last().push(before.last()) =~= before);
            }
            closed = closed + r;
            current = 0;
        } else {
            proof {
                let after = lines(chars@.take(i as int + 1));
                assert(after.drop_last() =~= before.drop_last());
                assert(after.last() == before.last().push(chars@[i as int]));
            }
            current = current + 1;
        }
        i = i + 1;
    }
    assert(chars@.take(chars@.len() as int) =~= chars@);
    let r = rows_of(current, per_line, Ghost(lines(chars@).last()));
    closed + r
}

proof fn cut_rows_split(body: Seq<char>, n: int, per_line: int)
    requires
        0 <= n <= body.len(),
    ensures
        lines(body.take(n)).len() > 0,
        cut_rows(body, n, per_line) == total_rows(lines(body.take(n)).drop_last(), per_line)
            + rows(lines(body.take(n)).last().push('…'), per_line),
{
    let before = lines(body.take(n));
    let cut = body.take(n).push('…');
    lines_are_there(body.take(n));
    assert(cut.drop_last() =~= body.take(n));
    assert(cut.last() == '…');
    let all = lines(cut);
    assert(all.drop_last() =~= before.drop_last());
}

fn find_cut(chars: &Vec<char>, per_line: u128, fit: u128) -> (n: usize)
    requires
        per_line > 0,
        chars@.len() > 0,
    ensures
        n == longest_cut(chars@, chars@.len() - 1, per_line as int, fit as int),
        n < chars@.len(),
{
    let mut best: usize = 0;
    let mut closed: u128 = 0;
    let mut current: u128 = 0;
    let mut i: usize = 0;
    proof {
        lines_are_there(chars@.take(0));
        assert(chars@.take(0) =~= Seq::<char>::empty());
        assert(lines(chars@.take(0)).drop_last() =~= Seq::<Seq<char>>::empty());
    }
    while i < chars.len() - 1
        invariant
            i < chars@.len(),
            best <= i,
            per_line > 0,
            best == longest_cut(chars@, i as int, per_line as int, fit as int),
            lines(chars@.take(i as int)).len() > 0,
            closed == total_rows(lines(chars@.take(i as int)).drop_last(), per_line as int),
            current == lines(chars@.take(i as int)).last().len(),
            closed + current <= i,
        decreases chars.len() - i,
    {
        let ghost before = lines(chars@.take(i as int));
        let ghost after = lines(chars@.take(i as int + 1));
        proof {
            assert(chars@.take(i as int + 1).drop_last() =~= chars@.take(i as int));
            assert(chars@.take(i as int + 1).last() == chars@[i as int]);
            cut_rows_split(chars@, i as int + 1, per_line as int);
        }
        if chars[i] == '\n' {
            let r = rows_of(current, per_line, Ghost(before.last()));
            proof {
                assert(after.drop_last() =~= before);
                assert(before.drop_last().push(before.last()) =~= before);
            }
            closed = closed + r;
            current = 0;
        } else {
            proof {
                assert(after.drop_last() =~= before.drop_last());
                assert(after.last() == before.last().push(chars@[i as int]));
            }
            current = current + 1;
        }
        i = i + 1;
        let last = rows_of(current + 1, per_line, Ghost(after.last().push('…')));
        if closed + last <= fit {
            best = i;
        }
    }
    best
}

/// Decides a pop-up's height in pixels and the body that it shows.
pub fn compute_layout(
    body_in: &str,
    has_actions: bool,
    popup_width: u32,
    min_height: u32,
    max_height: u32,
) -> (out: (u32, String))
    ensures
        out.0 == popup_height(body_in@, has_actions, popup_width, min_height, max_height),
        out.1@ == shown_body(body_in@, has_actions, popup_width, out.0 as int),
{
    let ceiling: u32 = if max_height < min_height {
        min_height
    } else {
        max_height
    };
    let side: u32 = CONTAINER_PAD_LEFT + CONTAINER_PAD_RIGHT + ACCENT_BAR_W + ACCENT_GAP_W;
    let region: u32 = if popup_width >= side {
        popup_width - side
    } else {
        0
    };
    let per_line: u64 = if region / AVG_GLYPH_W < 20 {
        20
    } else {
        (region / AVG_GLYPH_W) as u64
    };
    assert(per_line == chars_per_line(popup_width));
    let action_block: u32 = if has_actions {
        OUTER_SPACING + ACTION_SPACER_H + OUTER_SPACING + ACTION_ROW_H
    } else {
        0
    };
    let chrome: u32 = CONTAINER_PAD_V + HEADER_H + OUTER_SPACING + SUMMARY_H + action_block;
    let chars = text::chars_of(body_in);
    let natural: u128 = if chars.len() == 0 {
        0
    } else {
        count_rows(&chars, per_line as u128)
    };
    assert(natural <= chars.len() + 1);
    let wanted: u128 = if natural > 0 {
        assert(natural * (BODY_LINE_H as u128) == natural * 16) by (nonlinear_arith)
            requires
                BODY_LINE_H == 16,
        ;
        chrome as u128 + INNER_SPACING as u128 + natural * (BODY_LINE_H as u128)
    } else {
        chrome as u128
    };
    assert(wanted == wanted_height(body_in@, has_actions, popup_width));
    let chosen: u32 = if wanted < min_height as u128 {
        min_height
    } else if wanted > ceiling as u128 {
        ceiling
    } else {
        wanted as u32
    };
    let budget: u32 = if chosen > chrome {
        chosen - chrome
    } else {
        0
    };
    let fit: u64 = if budget > INNER_SPACING {
        ((budget - INNER_SPACING) / BODY_LINE_H) as u64
    } else {
        0
    };
    assert(fit == fitting_rows(chosen as int, has_actions));
    if chars.len() == 0 || fit == 0 {
        return (chosen, String::new());
    }
    if natural <= fit as u128 {
        return (chosen, body_in.to_owned());
    }
    let keep: usize = find_cut(&chars, per_line as u128, fit as u128);
    let mut out = text::text_of(&chars, 0, keep);
    assert(out@ =~= body_in@.take(keep as int));
    out.push('…');
    (chosen, out)
}

// ---------- laws ----------

/// A pop-up is never lower than the least height, nor taller than the greatest, unless that
/// one is below the least.
pub proof fn height_is_within_limits(
    body: Seq<char>,
    has_actions: bool,
    popup_width: u32,
    min_height: u32,
    max_height: u32,
)
    ensures
        min_height <= popup_height(body, has_actions, popup_width, min_height, max_height),
        min_height <= max_height ==> popup_height(
            body,
            has_actions,
            popup_width,
            min_height,
            max_height,
        ) <= max_height,
        max_height < min_height ==> popup_height(
            body,
            has_actions,
            popup_width,
            min_height,
            max_height,
        ) == min_height,
{
}

proof fn longest_cut_is_longest(body: Seq<char>, n: int, per_line: int, fit: int)
    requires
        0 <= n < body.len(),
        per_line > 0,
        fit > 0,
    ensures
        0 <= longest_cut(body, n, per_line, fit) <= n,
        cut_rows(body, longest_cut(body, n, per_line, fit), per_line) <= fit,
        forall|m: int|
            longest_cut(body, n, per_line, fit) < m <= n ==> #[trigger] cut_rows(body, m, per_line)
                > fit,
    decreases n,
{
    if n > 0 {
        if cut_rows(body, n, per_line) > fit {
            longest_cut_is_longest(body, n - 1, per_line, fit);
        }
    } else {
        cut_rows_split(body, 0, per_line);
        let before = lines(body.take(0));
        assert(body.take(0) =~= Seq::<char>::empty());
        assert(before.drop_last() =~= Seq::<Seq<char>>::empty());
        assert(before.last().push('…').len() == 1);
        assert((1 + per_line - 1) / per_line == 1) by (nonlinear_arith)
            requires
                per_line > 0,
        ;
    }
}

/// What a pop-up shows of its body fits in its height, and is the body, nothing, or the longest
/// proper beginning that fits with an ellipsis behind it.
pub proof fn shown_body_is_the_longest_that_fits(
    body: Seq<char>,
    has_actions: bool,
    popup_width: u32,
    height: int,
)
    ensures
        ({
            let shown = shown_body(body, has_actions, popup_width, height);
            let per_line = chars_per_line(popup_width);
            let fit = fitting_rows(height, has_actions);
            &&& body_rows(shown, per_line) <= fit
            &&& {
                ||| shown == body
                ||| shown.len() == 0 && fit == 0
                ||| {
                    &&& body_rows(body, per_line) > fit
                    &&& 0 < shown.len() <= body.len()
                    &&& shown.last() == '…'
                    &&& shown.drop_last() == body.take(shown.len() - 1)
                    &&& forall|m: int|
                        shown.len() - 1 < m < body.len() ==> #[trigger] cut_rows(body, m, per_line)
                            > fit
                }
            }
        }),
{
    let per_line = chars_per_line(popup_width);
    let fit = fitting_rows(height, has_actions);
    let shown = shown_body(body, has_actions, popup_width, height);
    if body.len() > 0 && fit > 0 && body_rows(body, per_line) > fit {
        longest_cut_is_longest(body, body.len() - 1, per_line, fit);
        assert(shown.drop_last() =~= body.take(shown.len() - 1));
    }
    if body.len() == 0 {
        assert(shown =~= body);
    }
}

} // verus!
