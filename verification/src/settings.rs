//! Single settings in the text of the configuration file.

use crate::text;
use vstd::prelude::*;

verus! {

/// The entry of the password store where the configuration names none.
pub const DEFAULT_PASS_ENTRY: &'static str = "olha/db-key";

/// Why a text is not TOML; nothing where it is.
pub uninterp spec fn toml_error(text: Seq<char>) -> Option<Seq<char>>;

/// The text that a TOML document holds under a key of a table; nothing where there is none.
pub uninterp spec fn toml_text(doc: Seq<char>, table: Seq<char>, key: Seq<char>) -> Option<
    Seq<char>,
>;

/// The truth value that a TOML document holds under a key of a table; nothing where there is
/// none.
pub uninterp spec fn toml_flag(doc: Seq<char>, table: Seq<char>, key: Seq<char>) -> Option<bool>;

/// A TOML document after two keys of a table were set: the document, nothing where the table is
/// something else, or why there is no document.
pub uninterp spec fn toml_edited(
    doc: Seq<char>,
    table: Seq<char>,
    flag_key: Seq<char>,
    flag: bool,
    text_key: Seq<char>,
    value: Seq<char>,
) -> Result<Option<Seq<char>>, Seq<char>>;

/// `toml::from_str` to a `toml::Value`, then the text under a key of a table.
#[verifier::external_body]
fn lookup_text(doc: &str, table: &str, key: &str) -> (value: Result<Option<String>, String>)
    ensures
        match value {
            Ok(Some(v)) => toml_error(doc@) is None && toml_text(doc@, table@, key@) == Some(v@),
            Ok(None) => toml_error(doc@) is None && toml_text(doc@, table@, key@) is None,
            Err(e) => toml_error(doc@) == Some(e@),
        },
{
    let doc: toml::Value = toml::from_str(doc).map_err(|e| e.to_string())?;
    let value = doc.get(table).and_then(|t| t.get(key)).and_then(|v| v.as_str());
    Ok(value.map(|v| v.to_string()))
}

/// `toml::from_str` to a `toml::Value`, then the truth value under a key of a table.
#[verifier::external_body]
fn lookup_flag(doc: &str, table: &str, key: &str) -> (value: Result<Option<bool>, String>)
    ensures
        match value {
            Ok(v) => toml_error(doc@) is None && toml_flag(doc@, table@, key@) == v,
            Err(e) => toml_error(doc@) == Some(e@),
        },
{
    let doc: toml::Value = toml::from_str(doc).map_err(|e| e.to_string())?;
    Ok(doc.get(table).and_then(|t| t.get(key)).and_then(|v| v.as_bool()))
}

/// Quotes in a row that are one too many for the writer of TOML, which counts them in a byte.
pub const LONG_RUN: usize = 256;

/// Whether that many characters from a place on are all the same.
pub open spec fn is_run(text: Seq<char>, start: int, c: char) -> bool {
    forall|k: int| start <= k < start + LONG_RUN ==> #[trigger] text[k] == c
}

/// Whether a character stands too many times in a row somewhere in a text.
pub open spec fn has_run(text: Seq<char>, c: char) -> bool {
    exists|start: int| 0 <= start <= text.len() - LONG_RUN && #[trigger] is_run(text, start, c)
}

/// Whether a text can be written as a value: neither kind of quotes stands too many times in a
/// row.
pub open spec fn writable(text: Seq<char>) -> bool {
    !has_run(text, '\'') && !has_run(text, '"')
}

fn find_run(chars: &Vec<char>, c: char) -> (found: bool)
    ensures
        found == has_run(chars@, c),
{
    let mut run: usize = 0;
    let mut i: usize = 0;
    while i < chars.len()
        invariant
            i <= chars@.len(),
            run <= i,
            run < LONG_RUN,
            forall|k: int| i - run <= k < i ==> #[trigger] chars@[k] == c,
            run < i ==> chars@[i - run - 1] != c,
            forall|start: int|
                0 <= start <= i - LONG_RUN ==> !(#[trigger] is_run(chars@, start, c)),
        decreases chars.len() - i,
    {
        let ghost seen = i as int;
        let ghost before = run as int;
        if chars[i] == c {
            run = run + 1;
            if run >= LONG_RUN {
                assert(is_run(chars@, i - 255, c));
                return true;
            }
        } else {
            run = 0;
        }
        i = i + 1;
        assert forall|start: int| 0 <= start <= i - LONG_RUN implies !(
        #[trigger] is_run(chars@, start, c)) by {
            if start == i - LONG_RUN {
                if chars@[seen] != c {
                    assert(start <= seen < start + LONG_RUN);
                } else {
                    assert(start <= seen - before - 1 < start + LONG_RUN);
                    assert(chars@[seen - before - 1] != c);
                }
            }
        }
    }
    false
}

/// Whether no key of a document is the one that `toml` takes for the mark of a date: its name
/// does not stand there, and no character is written by its number.
pub open spec fn marks_no_date(doc: Seq<char>) -> bool {
    &&& !text::contains(doc, "$__toml_private_datetime"@)
    &&& !text::contains(doc, "\\u"@)
    &&& !text::contains(doc, "\\U"@)
}

/// Whether a key is made of small letters and underscores.
pub open spec fn is_bare_key(key: Seq<char>) -> bool {
    forall|i: int| 0 <= i < key.len() ==> 'a' <= #[trigger] key[i] <= 'z' || key[i] == '_'
}

/// `toml_edit::DocumentMut`, parsed from the document, with two keys of a table inserted and
/// written again. It fails where the document is no TOML, and gives nothing where the table is
/// something else. Where no key of the document marks a date, the text that it gives is TOML and
/// holds both keys as they were set.
#[verifier::external_body]
fn edit_table(
    doc: &str,
    table: &str,
    flag_key: &str,
    flag: bool,
    text_key: &str,
    value: &str,
) -> (out: Result<Option<String>, String>)
    requires
        writable(value@),
    ensures
        match out {
            Ok(Some(t)) => {
                &&& toml_edited(doc@, table@, flag_key@, flag, text_key@, value@) == Ok::<
                    Option<Seq<char>>,
                    Seq<char>,
                >(Some(t@))
                &&& marks_no_date(doc@) && is_bare_key(table@) && is_bare_key(flag_key@)
                    && is_bare_key(text_key@) && flag_key@ != text_key@ ==> {
                    &&& toml_error(t@) is None
                    &&& toml_flag(t@, table@, flag_key@) == Some(flag)
                    &&& toml_text(t@, table@, text_key@) == Some(value@)
                }
            },
            Ok(None) => toml_edited(doc@, table@, flag_key@, flag, text_key@, value@) == Ok::<
                Option<Seq<char>>,
                Seq<char>,
            >(None),
            Err(e) => toml_edited(doc@, table@, flag_key@, flag, text_key@, value@) == Err::<
                Option<Seq<char>>,
                Seq<char>,
            >(e@),
        },
{
    let mut doc: toml_edit::DocumentMut =
        doc.parse().map_err(|e: toml_edit::TomlError| e.to_string())?;
    let new_table = toml_edit::Item::Table(toml_edit::Table::new());
    match doc.entry(table).or_insert(new_table).as_table_mut() {
        Some(entry) => {
            entry.insert(flag_key, toml_edit::value(flag));
            entry.insert(text_key, toml_edit::value(value));
            Ok(Some(doc.to_string()))
        },
        None => Ok(None),
    }
}

/// Whether encryption is on and which entry it takes, by the text of the configuration.
pub fn read_encryption_config(doc: &str) -> (read: Result<(bool, String), String>)
    ensures
        match read {
            Ok(r) => {
                &&& toml_error(doc@) is None
                &&& r.0 == (toml_flag(doc@, "encryption"@, "enabled"@) == Some(true))
                &&& r.1@ == match toml_text(doc@, "encryption"@, "pass_entry"@) {
                    Some(t) => t,
                    None => DEFAULT_PASS_ENTRY@,
                }
            },
            Err(e) => toml_error(doc@) == Some(e@),
        },
{
    let enabled = match lookup_flag(doc, "encryption", "enabled") {
        Ok(Some(b)) => b,
        Ok(None) => false,
        Err(e) => {
            return Err(e);
        },
    };
    let entry = match lookup_text(doc, "encryption", "pass_entry") {
        Ok(Some(t)) => t,
        Ok(None) => DEFAULT_PASS_ENTRY.to_owned(),
        Err(e) => {
            return Err(e);
        },
    };
    Ok((enabled, entry))
}

/// Where the store is, by the text of the configuration; nothing where it does not say.
pub fn db_path_from_config(doc: &str) -> (path: Result<Option<String>, String>)
    ensures
        match path {
            Ok(Some(p)) => toml_error(doc@) is None && toml_text(doc@, "general"@, "db_path"@)
                == Some(p@),
            Ok(None) => toml_error(doc@) is None && toml_text(
                doc@,
                "general"@,
                "db_path"@,
            ) is None,
            Err(e) => toml_error(doc@) == Some(e@),
        },
{
    lookup_text(doc, "general", "db_path")
}

/// The text that an edit gave, or what is said where it gave none.
pub open spec fn edit_outcome(edited: Result<Option<Seq<char>>, Seq<char>>) -> Result<
    Seq<char>,
    Seq<char>,
> {
    match edited {
        Ok(Some(t)) => Ok(t),
        Ok(None) => Err("[encryption] is not a table"@),
        Err(e) => Err(e),
    }
}

/// What an edit gave.
pub open spec fn edit_seen(edited: Result<Option<String>, String>) -> Result<
    Option<Seq<char>>,
    Seq<char>,
> {
    match edited {
        Ok(Some(t)) => Ok(Some(t@)),
        Ok(None) => Ok(None),
        Err(e) => Err(e@),
    }
}

/// The text that an edit gave, or what is said where it gave none.
pub fn take_edit(edited: Result<Option<String>, String>) -> (out: Result<String, String>)
    ensures
        match out {
            Ok(t) => edit_outcome(edit_seen(edited)) == Ok::<Seq<char>, Seq<char>>(t@),
            Err(e) => edit_outcome(edit_seen(edited)) == Err::<Seq<char>, Seq<char>>(e@),
        },
{
    match edited {
        Ok(Some(t)) => Ok(t),
        Ok(None) => Err("[encryption] is not a table".to_owned()),
        Err(e) => Err(e),
    }
}

/// Whether an entry can be written to the configuration.
pub fn is_writable(pass_entry: &str) -> (yes: bool)
    ensures
        yes == writable(pass_entry@),
{
    let chars = text::chars_of(pass_entry);
    !find_run(&chars, '\'') && !find_run(&chars, '"')
}

proof fn keys_are_bare()
    ensures
        is_bare_key("encryption"@),
        is_bare_key("enabled"@),
        is_bare_key("pass_entry"@),
        "enabled"@ != "pass_entry"@,
{
    reveal_strlit("encryption");
    reveal_strlit("enabled");
    reveal_strlit("pass_entry");
    assert("enabled"@.len() == 7 && "pass_entry"@.len() == 10);
}

/// The text of the configuration with encryption switched on or off and its entry set. What
/// was set is what is read from it, unless a key of the text marks a date.
pub fn set_encryption_enabled_in_config(doc: &str, enabled: bool, pass_entry: &str) -> (out: Result<
    String,
    String,
>)
    requires
        writable(pass_entry@),
    ensures
        ({
            let edited = toml_edited(
                doc@,
                "encryption"@,
                "enabled"@,
                enabled,
                "pass_entry"@,
                pass_entry@,
            );
            match out {
                Ok(t) => {
                    &&& edit_outcome(edited) == Ok::<Seq<char>, Seq<char>>(t@)
                    &&& marks_no_date(doc@) ==> {
                        &&& toml_error(t@) is None
                        &&& toml_flag(t@, "encryption"@, "enabled"@) == Some(enabled)
                        &&& toml_text(t@, "encryption"@, "pass_entry"@) == Some(pass_entry@)
                    }
                },
                Err(e) => edit_outcome(edited) == Err::<Seq<char>, Seq<char>>(e@),
            }
        }),
{
    proof {
        keys_are_bare();
    }
    let edited = edit_table(doc, "encryption", "enabled", enabled, "pass_entry", pass_entry);
    take_edit(edited)
}

/// What follows `~/` in a path; nothing where it does not begin so.
pub open spec fn below_home(path: Seq<char>) -> Option<Seq<char>> {
    if path.len() >= 2 && path[0] == '~' && path[1] == '/' {
        Some(path.skip(2))
    } else {
        None
    }
}

/// What follows `~/` in a path.
pub fn home_relative(path: &str) -> (rest: Option<String>)
    ensures
        match rest {
            Some(r) => below_home(path@) == Some(r@),
            None => below_home(path@) is None,
        },
{
    let chars = text::chars_of(path);
    if chars.len() >= 2 && chars[0] == '~' && chars[1] == '/' {
        let rest = text::text_of(&chars, 2, chars.len());
        assert(rest@ =~= path@.skip(2));
        Some(rest)
    } else {
        None
    }
}

} // verus!
