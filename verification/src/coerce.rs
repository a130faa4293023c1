//! Coercion rules for plain text and for booleans.

use vstd::prelude::*;
use vstd::string::*;
use crate::line::{Environment, EnvironmentModel};
use crate::promptable::{Completion, Promptable};
use crate::text::{lowered, same_text, to_lower};

verus! {

/// What a prompt adds to its message to show a default by its text.
pub open spec fn default_suffix(shown: Seq<char>) -> Seq<char> {
    " (default="@ + shown + ")"@
}

/// The text that shows a default by its text.
pub fn suffix_for(shown: &str) -> (out: String)
    ensures
        out@ == default_suffix(shown@),
{
    String::from_str(" (default=").concat(shown).concat(")")
}

/// The message `msg` with a default shown by its text.
pub fn decorate_text(msg: &str, shown: &str) -> (out: String)
    ensures
        out@ == msg@ + default_suffix(shown@),
{
    String::from_str(msg).concat(suffix_for(shown).as_str())
}

impl Promptable for String {
    /// Any text is accepted as it is.
    open spec fn parsed(text: Seq<char>, env: EnvironmentModel) -> Result<Seq<char>, Seq<char>> {
        Ok(text)
    }

    open spec fn default_hint(default: Seq<char>) -> Seq<char> {
        default_suffix(default)
    }

    open spec fn completer() -> Completion {
        Completion::Plain
    }

    fn parse(text: &str, env: &Environment) -> (r: Result<String, String>) {
        Ok(String::from_str(text))
    }

    fn hint(default: &String) -> (out: String) {
        suffix_for(default.as_str())
    }

    fn completion() -> (c: Completion) {
        Completion::Plain
    }
}

/// The diagnostic for an empty text where one character is asked for.
pub open spec fn char_missing() -> Seq<char> {
    "cannot parse char from empty string"@
}

/// The diagnostic for a longer text where one character is asked for.
pub open spec fn char_crowded() -> Seq<char> {
    "too many characters in string"@
}

/// What a text means as a character: it must hold exactly one.
pub open spec fn char_parsed(text: Seq<char>) -> Result<char, Seq<char>> {
    if text.len() == 1 {
        Ok(text[0])
    } else if text.len() == 0 {
        Err(char_missing())
    } else {
        Err(char_crowded())
    }
}

/// `String::from` for a `char`: the string that holds the single character
/// `c`.
#[verifier::external_body]
fn char_text(c: char) -> (out: String)
    ensures
        out@ == seq![c],
{
    String::from(c)
}

impl Promptable for char {
    open spec fn parsed(text: Seq<char>, env: EnvironmentModel) -> Result<char, Seq<char>> {
        char_parsed(text)
    }

    open spec fn default_hint(default: char) -> Seq<char> {
        default_suffix(seq![default])
    }

    open spec fn completer() -> Completion {
        Completion::Plain
    }

    fn parse(text: &str, env: &Environment) -> (r: Result<char, String>) {
        let n: usize = text.unicode_len();
        if n == 1 {
            Ok(text.get_char(0))
        } else if n == 0 {
            Err(String::from_str("cannot parse char from empty string"))
        } else {
            Err(String::from_str("too many characters in string"))
        }
    }

    fn hint(default: &char) -> (out: String) {
        suffix_for(char_text(*default).as_str())
    }

    fn completion() -> (c: Completion) {
        Completion::Plain
    }
}

/// Whether the lowercase form of a text says yes.
pub open spec fn says_yes(lower: Seq<char>) -> bool {
    lower == "true"@ || lower == "yes"@ || lower == "y"@
}

/// Whether the lowercase form of a text says no.
pub open spec fn says_no(lower: Seq<char>) -> bool {
    lower == "false"@ || lower == "no"@ || lower == "n"@
}

/// The diagnostic for a text that is no boolean: it quotes the text as it
/// was entered.
pub open spec fn not_a_bool(text: Seq<char>) -> Seq<char> {
    "Could not parse "@ + text + " as bool."@
}

/// What a text means as a boolean: whatever its case, `true`, `yes` and `y`
/// are true, `false`, `no` and `n` are false, and anything else is rejected.
pub open spec fn bool_parsed(text: Seq<char>) -> Result<bool, Seq<char>> {
    let lower = lowered(text);
    if says_yes(lower) {
        Ok(true)
    } else if says_no(lower) {
        Ok(false)
    } else {
        Err(not_a_bool(text))
    }
}

/// What a prompt adds to its message to show a default boolean: the two keys,
/// the default one in upper case.
pub open spec fn bool_hint(default: bool) -> Seq<char> {
    if default {
        " (Y/n)"@
    } else {
        " (y/N)"@
    }
}

/// Coerces `text` into a boolean.
pub fn parse_bool(text: &str) -> (r: Result<bool, String>)
    ensures
        match r {
            Ok(value) => bool_parsed(text@) == Ok::<bool, Seq<char>>(value),
            Err(diagnostic) => bool_parsed(text@) == Err::<bool, Seq<char>>(diagnostic@),
        },
{
    let lower = to_lower(text);
    assert(lower@ =~= lowered(text@));
    let word = lower.as_str();
    if same_text(word, "true") || same_text(word, "yes") || same_text(word, "y") {
        Ok(true)
    } else if same_text(word, "false") || same_text(word, "no") || same_text(word, "n") {
        Ok(false)
    } else {
        Err(String::from_str("Could not parse ").concat(text).concat(" as bool."))
    }
}

/// No text says both yes and no, and an empty text says neither.
pub proof fn lemma_yes_excludes_no(lower: Seq<char>)
    ensures
        !(says_yes(lower) && says_no(lower)),
        says_yes(lower) || says_no(lower) ==> lower.len() > 0,
{
    reveal_strlit("true");
    reveal_strlit("yes");
    reveal_strlit("y");
    reveal_strlit("false");
    reveal_strlit("no");
    reveal_strlit("n");
    if says_yes(lower) && says_no(lower) {
        assert(lower[0] == 't' || lower[0] == 'y');
        assert(lower[0] == 'f' || lower[0] == 'n');
    }
}

impl Promptable for bool {
    open spec fn parsed(text: Seq<char>, env: EnvironmentModel) -> Result<bool, Seq<char>> {
        bool_parsed(text)
    }

    open spec fn default_hint(default: bool) -> Seq<char> {
        bool_hint(default)
    }

    open spec fn completer() -> Completion {
        Completion::Plain
    }

    fn parse(text: &str, env: &Environment) -> (r: Result<bool, String>) {
        parse_bool(text)
    }

    fn hint(default: &bool) -> (out: String) {
        if *default {
            String::from_str(" (Y/n)")
        } else {
            String::from_str(" (y/N)")
        }
    }

    fn completion() -> (c: Completion) {
        Completion::Plain
    }
}

} // verus!
