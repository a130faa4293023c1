//! Coercion rule for filesystem paths: a leading `~` stands for the home
//! directory.

use vstd::prelude::*;
use vstd::string::*;
use crate::coerce::{default_suffix, suffix_for};
use crate::line::{Environment, EnvironmentModel};
use crate::promptable::{Completion, Promptable};

verus! {

/// A filesystem path, held as the text it was entered as, after expansion.
#[derive(Debug, PartialEq, Eq)]
pub struct PathText {
    pub text: String,
}

impl View for PathText {
    type V = Seq<char>;

    open spec fn view(&self) -> Seq<char> {
        self.text@
    }
}

/// `text` with a leading `~` replaced by the home directory, where one is
/// known; any other text, and any text while none is known, stays as it is.
pub open spec fn expanded(text: Seq<char>, home: Option<Seq<char>>) -> Seq<char> {
    if text.len() > 0 && text[0] == '~' {
        match home {
            Some(dir) => dir + text.skip(1),
            None => text,
        }
    } else {
        text
    }
}

/// Expands a leading `~` in `s` to the home directory of `env`.
pub fn path_expand(s: String, env: &Environment) -> (out: String)
    ensures
        out@ == expanded(s@, env@.home),
{
    let n: usize = s.as_str().unicode_len();
    if n > 0 && s.as_str().get_char(0) == '~' {
        match &env.home {
            Some(dir) => {
                let rest = s.as_str().substring_char(1, n);
                assert(rest@ =~= s@.skip(1));
                String::from_str(dir.as_str()).concat(rest)
            },
            None => s,
        }
    } else {
        s
    }
}

impl Promptable for PathText {
    /// Any text is accepted, expanded.
    open spec fn parsed(text: Seq<char>, env: EnvironmentModel) -> Result<Seq<char>, Seq<char>> {
        Ok(expanded(text, env.home))
    }

    open spec fn default_hint(default: Seq<char>) -> Seq<char> {
        default_suffix(default)
    }

    open spec fn completer() -> Completion {
        Completion::Filename
    }

    fn parse(text: &str, env: &Environment) -> (r: Result<PathText, String>) {
        Ok(PathText { text: path_expand(String::from_str(text), env) })
    }

    fn hint(default: &PathText) -> (out: String) {
        suffix_for(default.text.as_str())
    }

    fn completion() -> (c: Completion) {
        Completion::Filename
    }
}

} // verus!
