//! What becomes of texts, from call to call.

use crate::config;
use crate::daemon::environment;
use crate::laws::configuring;
use crate::laws::notation;
use crate::laws::saying;
use crate::laws::serving;
use crate::output;
use crate::output::Look;
use crate::schema;
use crate::settings;
use crate::text;
use vstd::prelude::*;

verus! {

// ---------- numbers and bytes ----------

/// A number is written in digits that read as the number, without a leading zero.
pub proof fn a_number_is_written_out(n: u64, out: String)
    requires
        call_ensures(text::decimal_text, (n,), out),
    ensures
        text::digits_value(out@) == n,
        out@.len() > 0,
        n > 0 ==> out@[0] != '0',
        forall|i: int| 0 <= i < out@.len() ==> '0' <= (#[trigger] out@[i]) <= '9',
{
    notation::a_number_is_read_as_written(n as nat);
}

/// A number with a sign is written with a minus sign exactly where it is below zero.
pub proof fn a_sign_is_written_where_it_is_needed(a: i64, b: i64, one: String, other: String)
    requires
        call_ensures(text::signed_text, (a,), one),
        call_ensures(text::signed_text, (b,), other),
    ensures
        one@ == other@ <==> a == b,
        one@[0] == '-' <==> a < 0,
{
    notation::numbers_are_told_apart(a as int, b as int);
}

/// Bytes are written with two hexadecimal digits each, and different ones differently.
pub proof fn bytes_are_written_out(a: &[u8], b: &[u8], one: String, other: String)
    requires
        call_ensures(text::hex_text, (a,), one),
        call_ensures(text::hex_text, (b,), other),
    ensures
        one@.len() == 2 * a@.len(),
        one@ == other@ <==> a@ == b@,
{
    notation::bytes_are_told_apart(a@, b@);
}

// ---------- parts ----------

/// A text is found in another exactly where it is a part of it.
pub proof fn a_part_is_found(whole: &str, part: &str, found: bool)
    requires
        call_ensures(text::text_contains, (whole, part), found),
    ensures
        found <==> saying::stands_in(part@, whole@),
{
    if saying::stands_in(part@, whole@) {
        let (before, after) = choose|before: Seq<char>, after: Seq<char>|
            whole@ == #[trigger] (before + part@ + after);
        let i = before.len() as int;
        assert(whole@.subrange(i, i + part@.len()) =~= part@);
    }
    if text::contains(whole@, part@) {
        let i = choose|i: int|
            0 <= i <= whole@.len() - part@.len() && #[trigger] whole@.subrange(i, i + part@.len())
                == part@;
        let before = whole@.take(i);
        let after = whole@.skip(i + part@.len());
        assert(whole@ =~= before + part@ + after);
    }
}

/// Trimming leaves no white space at either end, and changes nothing where there is none.
pub proof fn no_white_space_is_left_at_the_ends(s: &str, out: String)
    requires
        call_ensures(text::trim, (s,), out),
    ensures
        out@.len() > 0 ==> !text::is_space(out@[0]) && !text::is_space(out@.last()),
        saying::stands_in(out@, s@),
        s@.len() > 0 && !text::is_space(s@[0]) && !text::is_space(s@.last()) ==> out@ == s@,
{
    notation::trimming_takes_white_space_alone(s@);
    let kept = out@;
    let n = choose|n: int|
        {
            &&& 0 <= n <= n + kept.len() <= s@.len()
            &&& kept == #[trigger] s@.subrange(n, n + kept.len())
            &&& forall|i: int| 0 <= i < n ==> text::is_space(#[trigger] s@[i])
            &&& forall|i: int| n + kept.len() <= i < s@.len() ==> text::is_space(#[trigger] s@[i])
        };
    let before = s@.take(n);
    let after = s@.skip(n + kept.len());
    assert(s@ =~= before + kept + after);
}

/// A text that is too long is cut to the length and ends in an ellipsis; any other stays as it is.
pub proof fn a_text_is_cut_to_length(s: &str, max: usize, out: String)
    requires
        call_ensures(output::truncate, (s, max), out),
        max > 0,
    ensures
        s@.len() <= max ==> out@ == s@,
        s@.len() > max ==> out@.len() == max && out@.last() == '…' && out@.drop_last() == s@.take(
            max - 1,
        ),
{
    if s@.len() > max {
        saying::a_long_text_is_cut(s@, max as nat);
    }
}

/// Color changes no word.
pub proof fn paint_changes_no_word(s: &str, look: Look, color: bool, out: String)
    requires
        call_ensures(output::paint, (s, look, color), out),
    ensures
        saying::stands_in(s@, out@),
        !color ==> out@ == s@,
        look is Plain ==> out@ == s@,
{
    saying::color_changes_no_word(s@, look);
    assert(s@ =~= Seq::<char>::empty() + s@ + Seq::<char>::empty());
}

// ---------- what is configured ----------

/// A number of units is read as that many seconds.
pub proof fn a_duration_is_read(n: u64, unit: char, s: &str, secs: Option<u64>)
    requires
        s@ == text::decimal(n as nat).push(unit),
        unit == 'd' || unit == 'h' || unit == 'm' || unit == 's',
        call_ensures(config::parse_duration, (s,), secs),
        n <= 1_000_000_000,
    ensures
        secs is Some,
        unit == 's' ==> secs->0 == n,
        unit == 'm' ==> secs->0 == 60 * n,
        unit == 'h' ==> secs->0 == 3_600 * n,
        unit == 'd' ==> secs->0 == 86_400 * n,
{
    configuring::a_number_of_units_is_a_duration(n, unit);
}

/// What follows a tilde and a slash lies below the home directory.
pub proof fn a_path_below_home_is_known(path: &str, rest: Option<String>)
    requires
        call_ensures(settings::home_relative, (path,), rest),
    ensures
        rest is Some <==> path@.len() >= 2 && path@[0] == '~' && path@[1] == '/',
        rest matches Some(r) ==> path@ == seq!['~', '/'] + r@,
{
    configuring::below_home_is_what_follows(path@, path@);
}

/// An entry that has no long run of quotes can be written.
pub proof fn an_ordinary_entry_can_be_written(entry: &str, yes: bool)
    requires
        call_ensures(settings::is_writable, (entry,), yes),
        entry@.len() < 256,
    ensures
        yes,
{
}

/// A failure to add a column is passed over exactly where the message says that it is there.
pub proof fn a_column_that_is_there_is_passed_over(message: &str, r: bool)
    requires
        call_ensures(schema::is_duplicate_column, (message,), r),
    ensures
        r <==> saying::stands_in("duplicate column name"@, message@),
{
    let part = "duplicate column name"@;
    if saying::stands_in(part, message@) {
        let (before, after) = choose|before: Seq<char>, after: Seq<char>|
            message@ == #[trigger] (before + part + after);
        let i = before.len() as int;
        assert(message@.subrange(i, i + part.len()) =~= part);
    }
    if text::contains(message@, part) {
        let i = choose|i: int|
            0 <= i <= message@.len() - part.len() && #[trigger] message@.subrange(i, i + part.len())
                == part;
        let before = message@.take(i);
        let after = message@.skip(i + part.len());
        assert(message@ =~= before + part + after);
    }
}

/// A listing of one assignment assigns that, whatever its value holds.
pub proof fn an_assignment_is_taken_over(
    name: Seq<char>,
    value: Seq<char>,
    listing: &str,
    out: Vec<(String, String)>,
)
    requires
        !name.contains('='),
        !name.contains('\n'),
        !value.contains('\n'),
        listing@ == name + seq!['='] + value + seq!['\n'],
        value.len() == 0 || value.last() != '\r',
        call_ensures(environment::parse_environment, (listing,), out),
    ensures
        out@.len() == 1,
        out@[0].0@ == name,
        out@[0].1@ == value,
{
    let line = name + seq!['='] + value;
    assert(!line.contains('\n')) by {
        if line.contains('\n') {
            let i = choose|i: int| 0 <= i < line.len() && line[i] == '\n';
            if i < name.len() {
                assert(name[i] == '\n');
            } else {
                assert(i > name.len());
                assert(value[i - name.len() - 1] == '\n');
            }
        }
    }
    assert(listing@ =~= line + seq!['\n'] + Seq::<char>::empty());
    serving::a_listing_is_read_line_by_line(line, Seq::empty());
    serving::an_assignment_is_read_as_written(name, value);
    assert(environment::assignments(environment::text_lines(Seq::<char>::empty()))
        =~= Seq::<(Seq<char>, Seq<char>)>::empty());
    let all = environment::pairs(out@);
    assert(all =~= seq![(name, value)]);
    assert(all[0] == (out@[0].0@, out@[0].1@));
}

} // verus!
