//! How numbers, bytes and times are written, and read again.

use crate::text;
use crate::time;
use vstd::prelude::*;

verus! {

// ---------- numbers ----------

/// The decimal notation of a number reads as the number, has digits only, and no leading zero.
pub proof fn a_number_is_read_as_written(n: nat)
    ensures
        text::digits_value(text::decimal(n)) == n,
        text::decimal(n).len() > 0,
        forall|i: int|
            0 <= i < text::decimal(n).len() ==> '0' <= (#[trigger] text::decimal(n)[i]) <= '9',
        n > 0 ==> text::decimal(n)[0] != '0',
    decreases n,
{
    reveal_with_fuel(text::digits_value, 2);
    let d = text::digit_char((n % 10) as int);
    let all = text::decimal(n);
    assert(d as int == 48 + n % 10);
    if n < 10 {
        assert(all.drop_last() =~= Seq::<char>::empty());
        assert(all.last() == d);
    } else {
        a_number_is_read_as_written(n / 10);
        let before = text::decimal(n / 10);
        assert(all.drop_last() =~= before);
        assert(all.last() == d);
        assert(all[0] == before[0]);
        assert forall|i: int| 0 <= i < all.len() implies '0' <= (#[trigger] all[i]) <= '9' by {
            if i < before.len() {
                assert(all[i] == before[i]);
            }
        }
    }
}

/// Different numbers are written differently, and a negative one begins with a minus sign.
pub proof fn numbers_are_told_apart(a: int, b: int)
    ensures
        text::signed_decimal(a) == text::signed_decimal(b) <==> a == b,
        text::signed_decimal(a)[0] == '-' <==> a < 0,
        a < 0 ==> text::signed_decimal(a).skip(1) == text::signed_decimal(-a),
{
    let m = if a < 0 {
        (-a) as nat
    } else {
        a as nat
    };
    let n = if b < 0 {
        (-b) as nat
    } else {
        b as nat
    };
    a_number_is_read_as_written(m);
    a_number_is_read_as_written(n);
    assert('0' <= text::decimal(m)[0] <= '9');
    assert('0' <= text::decimal(n)[0] <= '9');
    assert((seq!['-'] + text::decimal(m)).skip(1) =~= text::decimal(m));
    assert((seq!['-'] + text::decimal(n)).skip(1) =~= text::decimal(n));
}

// ---------- bytes ----------

/// Bytes are written with two hexadecimal digits each, and different bytes differently.
pub proof fn bytes_are_told_apart(a: Seq<u8>, b: Seq<u8>)
    ensures
        text::hex(a).len() == 2 * a.len(),
        text::hex(a) == text::hex(b) <==> a == b,
        forall|i: int|
            0 <= i < text::hex(a).len() ==> ('0' <= (#[trigger] text::hex(a)[i]) <= '9' || 'a'
                <= text::hex(a)[i] <= 'f'),
{
    if text::hex(a) == text::hex(b) {
        assert(text::hex(a).len() == 2 * a.len() && text::hex(b).len() == 2 * b.len());
        assert(a.len() == b.len());
        assert forall|i: int| 0 <= i < a.len() implies a[i] == b[i] by {
            let high = text::hex(a)[2 * i];
            let low = text::hex(a)[2 * i + 1];
            assert((2 * i) / 2 == i && (2 * i + 1) / 2 == i);
            assert((2 * i) % 2 == 0 && (2 * i + 1) % 2 == 1);
            assert(high == text::hex_char(a[i] as int / 16));
            assert(low == text::hex_char(a[i] as int % 16));
            assert(high == text::hex_char(b[i] as int / 16));
            assert(low == text::hex_char(b[i] as int % 16));
            hex_digits_are_told_apart(a[i] as int / 16, b[i] as int / 16);
            hex_digits_are_told_apart(a[i] as int % 16, b[i] as int % 16);
            assert(a[i] == 16 * (a[i] as int / 16) + a[i] as int % 16);
            assert(b[i] == 16 * (b[i] as int / 16) + b[i] as int % 16);
        }
        assert(a =~= b);
    }
    assert forall|i: int| 0 <= i < text::hex(a).len() implies ('0' <= (#[trigger] text::hex(a)[i])
        <= '9' || 'a' <= text::hex(a)[i] <= 'f') by {
        hex_digits_are_told_apart(a[i / 2] as int / 16, 0);
        hex_digits_are_told_apart(a[i / 2] as int % 16, 0);
    }
}

proof fn hex_digits_are_told_apart(a: int, b: int)
    requires
        0 <= a < 16,
        0 <= b < 16,
    ensures
        text::hex_char(a) == text::hex_char(b) <==> a == b,
        '0' <= text::hex_char(a) <= '9' || 'a' <= text::hex_char(a) <= 'f',
        a < 10 ==> text::hex_char(a) as int == '0' as int + a,
        a >= 10 ==> text::hex_char(a) as int == 'a' as int + a - 10,
{
}

// ---------- white space ----------

/// Trimming leaves a part of the text that neither begins nor ends with white space, and takes
/// nothing but white space away.
pub proof fn trimming_takes_white_space_alone(t: Seq<char>)
    ensures
        ({
            let kept = text::trimmed(t);
            &&& kept.len() > 0 ==> !text::is_space(kept[0]) && !text::is_space(kept.last())
            &&& exists|n: int|
                {
                    &&& 0 <= n <= n + kept.len() <= t.len()
                    &&& kept == #[trigger] t.subrange(n, n + kept.len())
                    &&& forall|i: int| 0 <= i < n ==> text::is_space(#[trigger] t[i])
                    &&& forall|i: int|
                        n + kept.len() <= i < t.len() ==> text::is_space(#[trigger] t[i])
                }
        }),
{
    start_is_trimmed(t);
    let from = t.len() - text::trimmed_start(t).len();
    let rest = text::trimmed_start(t);
    end_is_trimmed(rest);
    let kept = text::trimmed(t);
    assert(kept =~= t.subrange(from, from + kept.len()));
    assert forall|i: int| from + kept.len() <= i < t.len() implies text::is_space(
        #[trigger] t[i],
    ) by {
        assert(rest[i - from] == t[i]);
    }
}

proof fn start_is_trimmed(t: Seq<char>)
    ensures
        text::trimmed_start(t).len() <= t.len(),
        text::trimmed_start(t) == t.skip(t.len() - text::trimmed_start(t).len()),
        text::trimmed_start(t).len() > 0 ==> !text::is_space(text::trimmed_start(t)[0]),
        forall|i: int|
            0 <= i < t.len() - text::trimmed_start(t).len() ==> text::is_space(#[trigger] t[i]),
    decreases t.len(),
{
    if t.len() > 0 && text::is_space(t[0]) {
        let rest = t.skip(1);
        start_is_trimmed(rest);
        let kept = text::trimmed_start(t);
        assert(rest.skip(rest.len() - kept.len()) =~= t.skip(t.len() - kept.len()));
        assert forall|i: int| 0 <= i < t.len() - kept.len() implies text::is_space(
            #[trigger] t[i],
        ) by {
            if i > 0 {
                assert(rest[i - 1] == t[i]);
            }
        }
    } else {
        assert(t.skip(0) =~= t);
    }
}

proof fn end_is_trimmed(t: Seq<char>)
    ensures
        text::trimmed_end(t).len() <= t.len(),
        text::trimmed_end(t) == t.take(text::trimmed_end(t).len() as int),
        text::trimmed_end(t).len() > 0 ==> !text::is_space(text::trimmed_end(t).last()),
        forall|i: int|
            text::trimmed_end(t).len() <= i < t.len() ==> text::is_space(#[trigger] t[i]),
    decreases t.len(),
{
    if t.len() > 0 && text::is_space(t.last()) {
        let rest = t.drop_last();
        end_is_trimmed(rest);
        let kept = text::trimmed_end(t);
        assert(rest.take(kept.len() as int) =~= t.take(kept.len() as int));
        assert forall|i: int| kept.len() <= i < t.len() implies text::is_space(#[trigger] t[i]) by {
            if i < rest.len() {
                assert(rest[i] == t[i]);
            }
        }
    } else {
        assert(t.take(t.len() as int) =~= t);
    }
}

// ---------- case ----------

/// Lowering ASCII letters keeps the length, leaves no upper-case letter, and touches nothing else.
pub proof fn lowering_touches_letters_alone(t: Seq<char>, i: int)
    requires
        0 <= i < t.len(),
    ensures
        text::ascii_lowered(t).len() == t.len(),
        !('A' <= text::ascii_lowered(t)[i] <= 'Z'),
        !('A' <= t[i] <= 'Z') ==> text::ascii_lowered(t)[i] == t[i],
        'A' <= t[i] <= 'Z' ==> text::ascii_lowered(t)[i] as int - 'a' as int == t[i] as int
            - 'A' as int,
        text::ascii_lowered(text::ascii_lowered(t)) == text::ascii_lowered(t),
{
    assert(text::ascii_lowered(text::ascii_lowered(t)) =~= text::ascii_lowered(t));
}

// ---------- times ----------

/// The value of two digits.
pub open spec fn pair_value(t: Seq<char>) -> int {
    10 * (t[0] as int - 48) + (t[1] as int - 48)
}

/// A clock shows hours and minutes, two digits each, with a colon between: together the minutes
/// since midnight.
pub proof fn a_clock_shows_the_minutes_since_midnight(wall: int)
    ensures
        ({
            let shown = time::clock(wall);
            &&& shown.len() == 5
            &&& shown[2] == ':'
            &&& 0 <= pair_value(shown.take(2)) < 24
            &&& 0 <= pair_value(shown.skip(3)) < 60
            &&& 60 * pair_value(shown.take(2)) + pair_value(shown.skip(3)) == (wall % 86_400) / 60
        }),
{
    reveal_strlit(":");
    let h = wall % 86_400 / 3600;
    let m = wall % 3600 / 60;
    let shown = time::clock(wall);
    hours_and_minutes(wall);
    two_digits_are_their_number(h);
    two_digits_are_their_number(m);
    assert(shown.take(2) =~= time::two_digits(h));
    assert(shown.skip(3) =~= time::two_digits(m));
}

proof fn hours_and_minutes(wall: int)
    ensures
        0 <= wall % 86_400 / 3600 < 24,
        0 <= wall % 3600 / 60 < 60,
        60 * (wall % 86_400 / 3600) + wall % 3600 / 60 == (wall % 86_400) / 60,
{
    let d = wall % 86_400;
    let q = wall / 86_400;
    assert(wall == 86_400 * q + d);
    assert(wall % 3600 == d % 3600);
}

proof fn two_digits_are_their_number(n: int)
    requires
        0 <= n < 100,
    ensures
        pair_value(time::two_digits(n)) == n,
        time::two_digits(n).len() == 2,
{
    assert((48 + n / 10) as char as int == 48 + n / 10);
    assert((48 + n % 10) as char as int == 48 + n % 10);
}

/// A week has seven days that are told apart: a day's name comes back after seven days, and not
/// before.
pub proof fn a_week_has_seven_days(wall: int, days: int)
    requires
        0 < days <= 7,
    ensures
        time::weekday(wall + days * 86_400) == time::weekday(wall) <==> days == 7,
{
    reveal_strlit("Sun");
    reveal_strlit("Mon");
    reveal_strlit("Tue");
    reveal_strlit("Wed");
    reveal_strlit("Thu");
    reveal_strlit("Fri");
    reveal_strlit("Sat");
    assert((wall + days * 86_400) / 86_400 == wall / 86_400 + days);
    assert("Sun"@[0] == 'S' && "Sun"@[1] == 'u');
    assert("Mon"@[0] == 'M');
    assert("Tue"@[0] == 'T' && "Tue"@[1] == 'u');
    assert("Wed"@[0] == 'W');
    assert("Thu"@[0] == 'T' && "Thu"@[1] == 'h');
    assert("Fri"@[0] == 'F');
    assert("Sat"@[0] == 'S' && "Sat"@[1] == 'a');
}

/// The days of the week follow each other from the first of January 1970 on, which was a Thursday.
pub proof fn days_follow_each_other(wall: int)
    ensures
        0 <= wall < 86_400 ==> time::weekday(wall) == "Thu"@,
        time::weekday(wall) == "Thu"@ ==> time::weekday(wall + 86_400) == "Fri"@,
        time::weekday(wall) == "Fri"@ ==> time::weekday(wall + 86_400) == "Sat"@,
        time::weekday(wall) == "Sat"@ ==> time::weekday(wall + 86_400) == "Sun"@,
        time::weekday(wall) == "Sun"@ ==> time::weekday(wall + 86_400) == "Mon"@,
        time::weekday(wall) == "Mon"@ ==> time::weekday(wall + 86_400) == "Tue"@,
        time::weekday(wall) == "Tue"@ ==> time::weekday(wall + 86_400) == "Wed"@,
        time::weekday(wall) == "Wed"@ ==> time::weekday(wall + 86_400) == "Thu"@,
{
    reveal_strlit("Sun");
    reveal_strlit("Mon");
    reveal_strlit("Tue");
    reveal_strlit("Wed");
    reveal_strlit("Thu");
    reveal_strlit("Fri");
    reveal_strlit("Sat");
    assert((wall + 86_400) / 86_400 == wall / 86_400 + 1);
    assert("Sun"@[0] == 'S' && "Sun"@[1] == 'u');
    assert("Mon"@[0] == 'M');
    assert("Tue"@[0] == 'T' && "Tue"@[1] == 'u');
    assert("Wed"@[0] == 'W');
    assert("Thu"@[0] == 'T' && "Thu"@[1] == 'h');
    assert("Fri"@[0] == 'F');
    assert("Sat"@[0] == 'S' && "Sat"@[1] == 'a');
}

} // verus!
