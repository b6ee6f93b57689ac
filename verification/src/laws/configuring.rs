//! How what is configured is read.

use crate::config;
use crate::config::NotificationRule;
use crate::laws::notation;
use crate::pattern;
use crate::popup;
use crate::popup::config::{PopupRule, Position};
use crate::rules;
use crate::settings;
use crate::text;
use vstd::prelude::*;

verus! {

// ---------- durations ----------

proof fn no_space_is_trimmed(t: Seq<char>)
    requires
        t.len() > 0,
        !text::is_space(t[0]),
        !text::is_space(t.last()),
    ensures
        text::trimmed(t) == t,
{
}

/// A number and a unit are a duration of that many units: days, hours, minutes or seconds, as long
/// as the seconds can be counted.
pub proof fn a_number_of_units_is_a_duration(n: u64, unit: char)
    requires
        unit == 'd' || unit == 'h' || unit == 'm' || unit == 's',
    ensures
        ({
            let each = if unit == 'd' {
                86_400int
            } else if unit == 'h' {
                3_600int
            } else if unit == 'm' {
                60int
            } else {
                1int
            };
            config::duration_secs(text::decimal(n as nat).push(unit)) == if n * each <= u64::MAX {
                Some(n * each)
            } else {
                None
            }
        }),
{
    let digits = text::decimal(n as nat);
    let t = digits.push(unit);
    notation::a_number_is_read_as_written(n as nat);
    assert('0' <= digits[0] <= '9');
    assert(t[0] == digits[0]);
    assert(t.last() == unit);
    no_space_is_trimmed(t);
    assert(t.drop_last() =~= digits);
    assert(config::without_plus(digits) == digits);
    assert(config::all_digits(digits));
}

/// White space around a duration is passed over.
pub proof fn white_space_around_a_duration_is_passed_over(a: Seq<char>, b: Seq<char>)
    requires
        text::trimmed(a) == text::trimmed(b),
    ensures
        config::duration_secs(a) == config::duration_secs(b),
{
}

/// A text without a unit at its end, or with anything but digits before it, is no duration.
pub proof fn other_texts_are_no_durations(t: Seq<char>, i: int)
    requires
        t.len() > 0,
        !text::is_space(t[0]),
        !text::is_space(t.last()),
        t[0] != '+',
    ensures
        t.last() != 'd' && t.last() != 'h' && t.last() != 'm' && t.last() != 's'
            ==> config::duration_secs(t) is None,
        0 <= i < t.len() - 1 && !('0' <= t[i] <= '9') ==> config::duration_secs(t) is None,
        t.len() == 1 ==> config::duration_secs(t) is None,
{
    no_space_is_trimmed(t);
    if 0 <= i < t.len() - 1 && !('0' <= t[i] <= '9') {
        let digits = t.drop_last();
        assert(digits[0] == t[0]);
        assert(config::without_plus(digits) == digits);
        assert(digits[i] == t[i]);
        assert(!text::is_digit(digits[i]));
        assert(!config::all_digits(digits));
    }
}

// ---------- paths ----------

/// A tilde at the beginning of a path stands for the home directory, alone or before a slash, and
/// anywhere else for itself.
pub proof fn a_tilde_stands_for_home(rest: Seq<char>, path: Seq<char>, home: Seq<char>)
    ensures
        config::expanded(seq!['~', '/'] + rest, Some(home)) == home + seq!['/'] + rest,
        config::expanded(seq!['~'], Some(home)) == home,
        path.len() == 0 || path[0] != '~' ==> config::expanded(path, Some(home)) == path,
        config::expanded(path, None) == path,
{
    let long = seq!['~', '/'] + rest;
    assert(home + long.skip(1) =~= home + seq!['/'] + rest);
    assert(home + seq!['~'].skip(1) =~= home);
}

/// What lies below the home directory is what follows the tilde and the slash.
pub proof fn below_home_is_what_follows(rest: Seq<char>, path: Seq<char>)
    ensures
        settings::below_home(seq!['~', '/'] + rest) == Some(rest),
        settings::below_home(path) matches Some(r) ==> path == seq!['~', '/'] + r,
{
    assert((seq!['~', '/'] + rest).skip(2) =~= rest);
    if let Some(r) = settings::below_home(path) {
        assert(path =~= seq!['~', '/'] + r);
    }
}

// ---------- names ----------

/// The corners are told apart by their names.
pub proof fn a_corner_is_known_by_its_name(name: Seq<char>)
    ensures
        popup::config::position_named(name) == Some(Position::TopRight) <==> name == "top-right"@,
        popup::config::position_named(name) == Some(Position::TopLeft) <==> name == "top-left"@,
        popup::config::position_named(name) == Some(Position::BottomRight) <==> name
            == "bottom-right"@,
        popup::config::position_named(name) == Some(Position::BottomLeft) <==> name
            == "bottom-left"@,
{
    reveal_strlit("top-right");
    reveal_strlit("top-left");
    reveal_strlit("bottom-right");
    reveal_strlit("bottom-left");
    assert("top-right"@.len() == 9 && "top-left"@.len() == 8);
    assert("bottom-right"@.len() == 12 && "bottom-left"@.len() == 11);
}

// ---------- broken rules ----------

/// Whether one of the patterns of a rule is no regular expression.
pub open spec fn has_broken_pattern(rule: NotificationRule) -> bool {
    ||| rule.app_name matches Some(p) && pattern::pattern_error(p@) is Some
    ||| rule.summary matches Some(p) && pattern::pattern_error(p@) is Some
    ||| rule.body matches Some(p) && pattern::pattern_error(p@) is Some
    ||| rule.category matches Some(p) && pattern::pattern_error(p@) is Some
}

/// Rules are refused as a whole where one that has a known action has a pattern that is no regular
/// expression, and only there.
pub proof fn a_broken_pattern_refuses_the_rules(list: Seq<NotificationRule>)
    ensures
        rules::first_error(list) is Some <==> exists|i: int|
            {
                &&& 0 <= i < list.len()
                &&& has_broken_pattern(#[trigger] list[i])
                &&& (list[i].action@ == "clear"@ || list[i].action@ == "ignore"@ || list[i].action@
                    == "none"@)
            },
    decreases list.len(),
{
    if list.len() > 0 {
        let rest = list.skip(1);
        a_broken_pattern_refuses_the_rules(rest);
        if rules::rule_error(list[0]) is Some {
            assert(has_broken_pattern(list[0]));
        } else if rules::first_error(rest) is Some {
            let i = choose|i: int|
                {
                    &&& 0 <= i < rest.len()
                    &&& has_broken_pattern(#[trigger] rest[i])
                    &&& (rest[i].action@ == "clear"@ || rest[i].action@ == "ignore"@
                        || rest[i].action@ == "none"@)
                };
            assert(list[i + 1] == rest[i]);
        } else {
            assert forall|i: int| 0 <= i < list.len() implies !(has_broken_pattern(
                #[trigger] list[i],
            ) && (list[i].action@ == "clear"@ || list[i].action@ == "ignore"@ || list[i].action@
                == "none"@)) by {
                if i > 0 {
                    assert(rest[i - 1] == list[i]);
                }
            }
        }
    }
}

/// A rule on pop-ups is left out exactly where one of its patterns is no regular expression.
pub proof fn a_broken_pattern_leaves_a_popup_rule_out(rule: PopupRule)
    ensures
        popup::rules::usable_rules(seq![rule]).len() == 0 <==> {
            ||| rule.app_name matches Some(p) && pattern::pattern_error(p@) is Some
            ||| rule.summary matches Some(p) && pattern::pattern_error(p@) is Some
            ||| rule.body matches Some(p) && pattern::pattern_error(p@) is Some
        },
        popup::rules::skipped_lines(seq![rule]).len() == 1
            <==> popup::rules::usable_rules(seq![rule]).len() == 0,
{
    reveal_with_fuel(popup::rules::usable_rules, 2);
    reveal_with_fuel(popup::rules::skipped_lines, 2);
    assert(seq![rule].drop_last() =~= Seq::<PopupRule>::empty());
}

// ---------- keys that no click has ----------

/// A key of a rule's commands is warned of exactly where it is the name of an action of rules.
pub proof fn a_key_is_warned_of_where_it_names_an_action(
    key: Seq<char>,
    command: Seq<char>,
)
    ensures
        rules::key_warnings(seq![(key, command)]).len() == if key == "clear"@ || key == "ignore"@
            || key == "none"@ {
            1nat
        } else {
            0nat
        },
{
    reveal_with_fuel(rules::key_warnings, 2);
    assert(seq![(key, command)].drop_last() =~= Seq::<(Seq<char>, Seq<char>)>::empty());
}

/// A plus sign before the number of a duration changes nothing.
pub proof fn a_plus_sign_changes_nothing(digits: Seq<char>)
    requires
        digits.len() > 0,
        digits[0] != '+',
    ensures
        config::is_natural(seq!['+'] + digits) == config::is_natural(digits),
        config::natural(seq!['+'] + digits) == config::natural(digits),
{
    assert((seq!['+'] + digits).skip(1) =~= digits);
}

/// What is warned of in rules is what is warned of in each of them, in order.
pub proof fn each_rule_is_warned_of(before: Seq<NotificationRule>, rule: NotificationRule)
    ensures
        rules::all_warnings(before.push(rule)) == rules::all_warnings(before) + (
        match rule.on_action {
            Some(pairs) => rules::key_warnings(rules::text_pairs(pairs@)),
            None => Seq::empty(),
        }),
{
    assert(before.push(rule).drop_last() =~= before);
}

} // verus!
