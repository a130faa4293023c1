use promptly::{
    prompt, prompt_default, prompt_opt, Environment, LineResult, NonZeroInt, PathText, Prompter,
    ReadFailure, UrlText,
};

fn lines(texts: &[&str]) -> Vec<LineResult> {
    texts.iter().map(|t| LineResult::Line(t.to_string())).collect()
}

fn scripted(texts: &[&str]) -> Prompter {
    Prompter::new(lines(texts), Environment { home: None })
}

fn at_home(texts: &[&str], home: &str) -> Prompter {
    Prompter::new(lines(texts), Environment { home: Some(home.to_string()) })
}

fn strings(list: &Vec<String>) -> Vec<&str> {
    list.iter().map(|s| s.as_str()).collect()
}

#[test]
fn required_bool_accepts_every_spelling_of_yes() {
    for word in ["true", "yes", "y", "TRUE", "Yes"] {
        let mut p = scripted(&[word]);
        let r: Result<bool, ReadFailure> = prompt(&mut p, "Proceed");
        assert_eq!(r, Ok(true));
        assert!(p.diagnostics().is_empty());
        assert_eq!(p.remaining(), 0);
    }
}

#[test]
fn required_bool_accepts_every_spelling_of_no() {
    for word in ["false", "no", "n", "FALSE", "No", "N"] {
        let mut p = scripted(&[word]);
        let r: Result<bool, ReadFailure> = prompt(&mut p, "Proceed");
        assert_eq!(r, Ok(false));
        assert!(p.diagnostics().is_empty());
    }
}

#[test]
fn required_bool_asks_again_on_anything_else() {
    let mut p = scripted(&["maybe", "Maybe", "yess", "1", "y"]);
    let r: Result<bool, ReadFailure> = prompt(&mut p, "Proceed");
    assert_eq!(r, Ok(true));
    assert_eq!(
        strings(p.diagnostics()),
        vec![
            "Could not parse maybe as bool.",
            "Could not parse Maybe as bool.",
            "Could not parse yess as bool.",
            "Could not parse 1 as bool.",
        ]
    );
    assert_eq!(p.remaining(), 0);
}

#[test]
fn bool_diagnostic_quotes_the_answer_as_typed() {
    let mut p = scripted(&["MAYBE", "  Perhaps ", "n"]);
    let r: Result<bool, ReadFailure> = prompt(&mut p, "Proceed");
    assert_eq!(r, Ok(false));
    assert_eq!(
        strings(p.diagnostics()),
        vec!["Could not parse MAYBE as bool.", "Could not parse Perhaps as bool."]
    );
    assert_eq!(strings(p.prompts()), vec!["Proceed: ", "Proceed: ", "Proceed: "]);
}

#[test]
fn bool_answer_is_accepted_after_one_read() {
    for (word, value) in [(" Yes ", true), ("Y", true), ("tRUE", true), ("NO", false), (" n", false)] {
        let mut p = scripted(&[word, "unused"]);
        let r: Result<bool, ReadFailure> = prompt(&mut p, "Proceed");
        assert_eq!(r, Ok(value));
        assert_eq!(p.prompts().len(), 1);
        assert!(p.diagnostics().is_empty());
        assert_eq!(p.remaining(), 1);
        let mut p = scripted(&[word, "unused"]);
        let r: Result<Option<bool>, ReadFailure> = prompt_opt(&mut p, "Proceed");
        assert_eq!(r, Ok(Some(value)));
        assert_eq!(p.remaining(), 1);
    }
}

#[test]
fn value_shown_as_default_is_read_back_by_a_prompt() {
    for v in [0u32, 7, 42, 2018, u32::MAX] {
        let text = v.to_string();
        let mut p = scripted(&[&text, "unused"]);
        let r: Result<u32, ReadFailure> = prompt(&mut p, "Number");
        assert_eq!(r, Ok(v));
        assert_eq!(p.prompts().len(), 1);
        assert!(p.diagnostics().is_empty());
        assert_eq!(p.remaining(), 1);
    }
    for v in [i64::MIN, -42, -1, 0, 42, i64::MAX] {
        let text = v.to_string();
        let mut p = scripted(&[&text]);
        let r: Result<i64, ReadFailure> = prompt(&mut p, "Number");
        assert_eq!(r, Ok(v));
        assert!(p.diagnostics().is_empty());
    }
    let mut p = scripted(&["x"]);
    let r: Result<char, ReadFailure> = prompt(&mut p, "Key");
    assert_eq!(r, Ok('x'));
    let mut p = scripted(&[" ", "x"]);
    let r: Result<char, ReadFailure> = prompt(&mut p, "Key");
    assert_eq!(r, Ok('x'));
    assert_eq!(strings(p.diagnostics()), vec!["Value is required."]);
}

#[test]
fn repeated_invalid_input_shows_the_identical_message() {
    let mut p = scripted(&["maybe", "maybe", "maybe", "no"]);
    let r: Result<bool, ReadFailure> = prompt(&mut p, "Do you accept the terms?");
    assert_eq!(r, Ok(false));
    assert_eq!(p.prompts().len(), 4);
    for shown in p.prompts() {
        assert_eq!(shown, "Do you accept the terms?: ");
    }
    assert_eq!(p.diagnostics().len(), 3);
}

#[test]
fn required_bool_rejects_empty_input_as_missing() {
    let mut p = scripted(&["", "n"]);
    let r: Result<bool, ReadFailure> = prompt(&mut p, "Proceed");
    assert_eq!(r, Ok(false));
    assert_eq!(strings(p.diagnostics()), vec!["Value is required."]);
}

#[test]
fn optional_returns_none_at_once_on_empty_input() {
    let mut p = scripted(&["", "later"]);
    let r: Result<Option<String>, ReadFailure> = prompt_opt(&mut p, "Nickname");
    assert_eq!(r, Ok(None));
    assert_eq!(p.remaining(), 1);
    assert!(p.diagnostics().is_empty());
    assert_eq!(strings(p.prompts()), vec!["Nickname: "]);
    let mut p = scripted(&["  \t ", "7"]);
    let r: Result<Option<u32>, ReadFailure> = prompt_opt(&mut p, "Count");
    assert_eq!(r, Ok(None));
    assert_eq!(p.remaining(), 1);
    let mut p = scripted(&["", "y"]);
    let r: Result<Option<bool>, ReadFailure> = prompt_opt(&mut p, "Sure");
    assert_eq!(r, Ok(None));
    assert_eq!(p.remaining(), 1);
}

#[test]
fn optional_asks_again_on_invalid_input() {
    let mut p = scripted(&["x1", "", "5"]);
    let r: Result<Option<u8>, ReadFailure> = prompt_opt(&mut p, "Count");
    assert_eq!(r, Ok(None));
    assert_eq!(strings(p.diagnostics()), vec!["invalid digit found in string"]);
    assert_eq!(p.remaining(), 1);
    let mut p = scripted(&["300", "55"]);
    let r: Result<Option<u8>, ReadFailure> = prompt_opt(&mut p, "Count");
    assert_eq!(r, Ok(Some(55)));
    assert_eq!(strings(p.diagnostics()), vec!["number too large to fit in target type"]);
}

#[test]
fn required_discards_empty_lines_until_a_value_arrives() {
    let mut p = scripted(&["", "   ", "", "Ada", "unused"]);
    let r: Result<String, ReadFailure> = prompt(&mut p, "Enter your name");
    assert_eq!(r, Ok("Ada".to_string()));
    assert_eq!(
        strings(p.diagnostics()),
        vec!["Value is required.", "Value is required.", "Value is required."]
    );
    assert_eq!(p.prompts().len(), 4);
    assert_eq!(p.remaining(), 1);
}

#[test]
fn required_text_is_trimmed() {
    let mut p = scripted(&["  Grace Hopper \t"]);
    let r: Result<String, ReadFailure> = prompt(&mut p, "Enter your name");
    assert_eq!(r, Ok("Grace Hopper".to_string()));
}

#[test]
fn default_is_returned_on_empty_input() {
    let mut p = scripted(&["   "]);
    assert_eq!(prompt_default(&mut p, "Receive mail", true), Ok(true));
    assert_eq!(strings(p.prompts()), vec!["Receive mail (Y/n): "]);
    let mut p = scripted(&[""]);
    assert_eq!(prompt_default(&mut p, "Receive mail", false), Ok(false));
    assert_eq!(strings(p.prompts()), vec!["Receive mail (y/N): "]);
    let mut p = scripted(&[""]);
    assert_eq!(prompt_default(&mut p, "Language", "Rust".to_string()), Ok("Rust".to_string()));
    assert_eq!(strings(p.prompts()), vec!["Language (default=Rust): "]);
    let mut p = scripted(&[""]);
    assert_eq!(prompt_default(&mut p, "Enter the year", 2018u32), Ok(2018));
    assert_eq!(strings(p.prompts()), vec!["Enter the year (default=2018): "]);
    let mut p = scripted(&[""]);
    assert_eq!(prompt_default(&mut p, "Offset", -40i16), Ok(-40));
    assert_eq!(strings(p.prompts()), vec!["Offset (default=-40): "]);
    assert!(p.diagnostics().is_empty());
}

#[test]
fn default_that_would_not_parse_is_still_returned() {
    let mut p = scripted(&[""]);
    let r = prompt_default(&mut p, "Home", PathText { text: "~/x".to_string() });
    assert_eq!(r, Ok(PathText { text: "~/x".to_string() }));
    let mut p = at_home(&[""], "/home/u");
    let r = prompt_default(&mut p, "Home", PathText { text: "~/x".to_string() });
    assert_eq!(r, Ok(PathText { text: "~/x".to_string() }));
    assert_eq!(strings(p.prompts()), vec!["Home (default=~/x): "]);
}

#[test]
fn default_gives_way_to_a_value() {
    let mut p = scripted(&["nope", "N"]);
    assert_eq!(prompt_default(&mut p, "Receive mail", true), Ok(false));
    assert_eq!(strings(p.diagnostics()), vec!["Could not parse nope as bool."]);
    assert_eq!(
        strings(p.prompts()),
        vec!["Receive mail (Y/n): ", "Receive mail (Y/n): "]
    );
    let mut p = scripted(&["1999"]);
    assert_eq!(prompt_default(&mut p, "Enter the year", 2018u32), Ok(1999));
}

#[test]
fn path_expands_a_leading_tilde_to_home() {
    let mut p = at_home(&["~/x"], "/home/u");
    let r: Result<PathText, ReadFailure> = prompt(&mut p, "Path");
    assert_eq!(r, Ok(PathText { text: "/home/u/x".to_string() }));
}

#[test]
fn path_is_unchanged_without_home() {
    let mut p = scripted(&["~/x"]);
    let r: Result<PathText, ReadFailure> = prompt(&mut p, "Path");
    assert_eq!(r, Ok(PathText { text: "~/x".to_string() }));
}

#[test]
fn path_without_tilde_is_unchanged() {
    let mut p = at_home(&["/etc/~/passwd", "", "rel/~"], "/home/u");
    let r: Result<PathText, ReadFailure> = prompt(&mut p, "Path");
    assert_eq!(r, Ok(PathText { text: "/etc/~/passwd".to_string() }));
    let r: Result<Option<PathText>, ReadFailure> = prompt_opt(&mut p, "Path");
    assert_eq!(r, Ok(None));
    let r: Result<Option<PathText>, ReadFailure> = prompt_opt(&mut p, "Path");
    assert_eq!(r, Ok(Some(PathText { text: "rel/~".to_string() })));
}

#[test]
fn only_the_first_tilde_is_expanded() {
    let mut p = at_home(&["~", "~~/a~b"], "/root");
    let r: Result<PathText, ReadFailure> = prompt(&mut p, "Path");
    assert_eq!(r, Ok(PathText { text: "/root".to_string() }));
    let r: Result<PathText, ReadFailure> = prompt(&mut p, "Path");
    assert_eq!(r, Ok(PathText { text: "/root~/a~b".to_string() }));
}

#[test]
fn age_scenario() {
    let mut p = scripted(&["", "abc", "30"]);
    let r: Result<u32, ReadFailure> = prompt(&mut p, "Enter your age");
    assert_eq!(r, Ok(30));
    assert_eq!(
        strings(p.diagnostics()),
        vec!["Value is required.", "invalid digit found in string"]
    );
    assert_eq!(
        strings(p.prompts()),
        vec!["Enter your age: ", "Enter your age: ", "Enter your age: "]
    );
    assert_eq!(p.remaining(), 0);
}

#[test]
fn failed_read_is_never_retried() {
    let script = vec![
        LineResult::Line(String::new()),
        LineResult::Failed(ReadFailure::Interrupted),
        LineResult::Line("5".to_string()),
    ];
    let mut p = Prompter::new(script, Environment { home: None });
    let r: Result<u32, ReadFailure> = prompt(&mut p, "Count");
    assert_eq!(r, Err(ReadFailure::Interrupted));
    assert_eq!(p.remaining(), 1);
    assert_eq!(strings(p.diagnostics()), vec!["Value is required."]);
    let script = vec![LineResult::Failed(ReadFailure::Error("broken pipe".to_string()))];
    let mut p = Prompter::new(script, Environment { home: None });
    let r: Result<Option<bool>, ReadFailure> = prompt_opt(&mut p, "Sure");
    assert_eq!(r, Err(ReadFailure::Error("broken pipe".to_string())));
    let script = vec![LineResult::Failed(ReadFailure::EndOfInput)];
    let mut p = Prompter::new(script, Environment { home: None });
    assert_eq!(prompt_default(&mut p, "Sure", true), Err(ReadFailure::EndOfInput));
}

#[test]
fn exhausted_script_is_the_end_of_input() {
    let mut p = scripted(&["", "x"]);
    let r: Result<u32, ReadFailure> = prompt(&mut p, "Count");
    assert_eq!(r, Err(ReadFailure::EndOfInput));
    assert_eq!(p.prompts().len(), 3);
    assert_eq!(p.diagnostics().len(), 2);
    assert_eq!(p.remaining(), 0);
    let r: Result<String, ReadFailure> = prompt(&mut p, "Name");
    assert_eq!(r, Err(ReadFailure::EndOfInput));
    assert_eq!(p.prompts().len(), 4);
}

#[test]
fn consecutive_prompts_share_one_script() {
    let mut p = scripted(&["Ada", "36", "", "y"]);
    let name: Result<String, ReadFailure> = prompt(&mut p, "Name");
    let age: Result<u8, ReadFailure> = prompt(&mut p, "Age");
    let nick: Result<Option<String>, ReadFailure> = prompt_opt(&mut p, "Nickname");
    let mail = prompt_default(&mut p, "Mail", false);
    assert_eq!(name, Ok("Ada".to_string()));
    assert_eq!(age, Ok(36));
    assert_eq!(nick, Ok(None));
    assert_eq!(mail, Ok(true));
    assert_eq!(
        strings(p.prompts()),
        vec!["Name: ", "Age: ", "Nickname: ", "Mail (y/N): "]
    );
}

#[test]
fn url_is_parsed_into_its_normal_form() {
    let mut p = scripted(&["HTTP://Example.COM", "not a url", "https://a.example/p?q=1"]);
    let r: Result<UrlText, ReadFailure> = prompt(&mut p, "Site");
    assert_eq!(r, Ok(UrlText { text: "http://example.com/".to_string() }));
    let r: Result<UrlText, ReadFailure> = prompt(&mut p, "Site");
    assert_eq!(r, Ok(UrlText { text: "https://a.example/p?q=1".to_string() }));
    assert_eq!(strings(p.diagnostics()), vec!["relative URL without a base"]);
}

#[test]
fn url_default_is_shown_by_its_text() {
    let mut p = scripted(&[""]);
    let d = UrlText { text: "https://example.com/".to_string() };
    let r = prompt_default(&mut p, "Site", d);
    assert_eq!(r, Ok(UrlText { text: "https://example.com/".to_string() }));
    assert_eq!(strings(p.prompts()), vec!["Site (default=https://example.com/): "]);
}

#[test]
fn char_prompt_takes_exactly_one_character() {
    let mut p = scripted(&["ab", "é"]);
    let r: Result<char, ReadFailure> = prompt(&mut p, "Key");
    assert_eq!(r, Ok('é'));
    assert_eq!(strings(p.diagnostics()), vec!["too many characters in string"]);
    assert_eq!(
        strings(p.diagnostics())[0],
        "ab".parse::<char>().unwrap_err().to_string()
    );
    let mut p = scripted(&[""]);
    assert_eq!(prompt_default(&mut p, "Key", 'q'), Ok('q'));
    assert_eq!(strings(p.prompts()), vec!["Key (default=q): "]);
}

#[test]
fn nonzero_prompt_asks_again_on_zero() {
    let mut p = scripted(&["0", "", "12"]);
    let r: Result<NonZeroInt<u32>, ReadFailure> = prompt(&mut p, "Count");
    assert_eq!(r.map(|held| held.get()), Ok(12));
    assert_eq!(
        strings(p.diagnostics()),
        vec!["number would be zero for non-zero type", "Value is required."]
    );
}
