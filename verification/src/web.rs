//! Coercion rule for URLs, parsed by the `url` crate.

use vstd::prelude::*;
use vstd::string::*;
use crate::coerce::{default_suffix, suffix_for};
use crate::line::{Environment, EnvironmentModel};
use crate::promptable::{parse_outcome, Completion, Promptable};

verus! {

/// A URL, held as its serialization: the normal form that the parser gives it.
#[derive(Debug, PartialEq, Eq)]
pub struct UrlText {
    pub text: String,
}

impl View for UrlText {
    type V = Seq<char>;

    open spec fn view(&self) -> Seq<char> {
        self.text@
    }
}

/// What the URL parser makes of a text: the serialization of the URL it
/// describes, or the message of the parse error.
pub uninterp spec fn url_parsed(text: Seq<char>) -> Result<Seq<char>, Seq<char>>;

/// `url::Url::parse`, which is also what `Url`'s `FromStr` calls: parses an
/// absolute URL. The parser reads nothing but its argument, so its result is
/// given the name [`url_parsed`]: for a URL the serialization that `Url` holds,
/// for an error the text that `ParseError` displays.
#[verifier::external_body]
fn parse_url(text: &str) -> (r: Result<UrlText, String>)
    ensures
        parse_outcome(r) == url_parsed(text@),
{
    match url::Url::parse(text) {
        Ok(parsed) => Ok(UrlText { text: String::from(parsed) }),
        Err(error) => Err(error.to_string()),
    }
}

impl Promptable for UrlText {
    /// Whatever the URL parser makes of the text.
    open spec fn parsed(text: Seq<char>, env: EnvironmentModel) -> Result<Seq<char>, Seq<char>> {
        url_parsed(text)
    }

    open spec fn default_hint(default: Seq<char>) -> Seq<char> {
        default_suffix(default)
    }

    open spec fn completer() -> Completion {
        Completion::Plain
    }

    fn parse(text: &str, env: &Environment) -> (r: Result<UrlText, String>) {
        parse_url(text)
    }

    fn hint(default: &UrlText) -> (out: String) {
        suffix_for(default.text.as_str())
    }

    fn completion() -> (c: Completion) {
        Completion::Plain
    }
}

} // verus!
