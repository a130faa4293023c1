use promptly::{
    on_failure, optional_step, optional_step_with, render, required_step, required_step_with,
    then_step, Environment, FailureAction, FailurePolicy, LineResult, PathText, Prompter,
    ReadFailure, Step,
};

fn line(text: &str) -> LineResult {
    LineResult::Line(text.to_string())
}

fn scripted(texts: &[&str]) -> Prompter {
    Prompter::new(texts.iter().map(|t| line(t)).collect(), Environment { home: None })
}

fn strings(list: &Vec<String>) -> Vec<&str> {
    list.iter().map(|s| s.as_str()).collect()
}

fn even(text: String) -> Result<u32, String> {
    match text.parse::<u32>() {
        Ok(n) if n % 2 == 0 => Ok(n),
        Ok(n) => Err(format!("{} is odd", n)),
        Err(_) => Err(format!("'{}' is no number", text)),
    }
}

#[test]
fn render_adds_colon_and_space() {
    assert_eq!(render("Enter your age"), "Enter your age: ");
    assert_eq!(render(""), ": ");
}

#[test]
fn new_prompter_has_shown_and_printed_nothing() {
    let p = scripted(&["a", "b"]);
    assert_eq!(p.remaining(), 2);
    assert!(p.prompts().is_empty());
    assert!(p.diagnostics().is_empty());
    assert_eq!(p.environment(), &Environment { home: None });
}

#[test]
fn default_prompter_has_no_answers() {
    let mut p = Prompter::default();
    assert_eq!(p.remaining(), 0);
    assert_eq!(p.environment(), &Environment { home: None });
    assert_eq!(p.prompt_once("Say"), Err(ReadFailure::EndOfInput));
    assert_eq!(strings(p.prompts()), vec!["Say: "]);
}

#[test]
fn ask_hands_out_the_answers_in_order() {
    let mut p = scripted(&[" a ", "b"]);
    assert_eq!(p.ask("m"), line(" a "));
    assert_eq!(p.ask("m"), line("b"));
    assert_eq!(p.ask("m"), LineResult::Failed(ReadFailure::EndOfInput));
    assert_eq!(p.ask("n"), LineResult::Failed(ReadFailure::EndOfInput));
    assert_eq!(strings(p.prompts()), vec!["m: ", "m: ", "m: ", "n: "]);
    assert_eq!(p.remaining(), 0);
}

#[test]
fn print_appends_to_the_diagnostics() {
    let mut p = scripted(&[]);
    p.print("one".to_string());
    p.print("two".to_string());
    assert_eq!(strings(p.diagnostics()), vec!["one", "two"]);
}

#[test]
fn prompt_once_trims_and_never_retries() {
    let mut p = scripted(&["  hello  ", "", "x"]);
    assert_eq!(p.prompt_once("Say"), Ok("hello".to_string()));
    assert_eq!(p.prompt_once("Say"), Ok(String::new()));
    assert_eq!(p.remaining(), 1);
    assert!(p.diagnostics().is_empty());
    assert_eq!(strings(p.prompts()), vec!["Say: ", "Say: "]);
    assert_eq!(p.prompt_once("Say"), Ok("x".to_string()));
    assert_eq!(p.prompt_once("Say"), Err(ReadFailure::EndOfInput));
}

#[test]
fn prompt_once_returns_a_failed_read() {
    let script = vec![LineResult::Failed(ReadFailure::Interrupted), line("x")];
    let mut p = Prompter::new(script, Environment { home: None });
    assert_eq!(p.prompt_once("Say"), Err(ReadFailure::Interrupted));
    assert_eq!(p.remaining(), 1);
}

#[test]
fn prompter_prompt_opt_maps_empty_to_none() {
    let mut p = scripted(&["  ", "v", ""]);
    assert_eq!(p.prompt_opt("Say"), Ok(None));
    assert_eq!(p.prompt_opt("Say"), Ok(Some("v".to_string())));
    assert_eq!(p.prompt_opt("Say"), Ok(None));
    assert_eq!(p.prompt_opt("Say"), Err(ReadFailure::EndOfInput));
    assert!(p.diagnostics().is_empty());
}

#[test]
fn prompt_nonempty_skips_empty_answers() {
    let mut p = scripted(&["", " ", "value", "next"]);
    assert_eq!(p.prompt_nonempty("Say"), Ok("value".to_string()));
    assert_eq!(strings(p.diagnostics()), vec!["Value is required.", "Value is required."]);
    assert_eq!(strings(p.prompts()), vec!["Say: ", "Say: ", "Say: "]);
    assert_eq!(p.remaining(), 1);
}

#[test]
fn prompt_nonempty_ends_on_a_failed_read() {
    let script = vec![line(""), LineResult::Failed(ReadFailure::Error("io".to_string())), line("x")];
    let mut p = Prompter::new(script, Environment { home: None });
    assert_eq!(p.prompt_nonempty("Say"), Err(ReadFailure::Error("io".to_string())));
    assert_eq!(strings(p.diagnostics()), vec!["Value is required."]);
    assert_eq!(p.remaining(), 1);
    let mut p = scripted(&["", ""]);
    assert_eq!(p.prompt_nonempty("Say"), Err(ReadFailure::EndOfInput));
    assert_eq!(p.prompts().len(), 3);
    assert_eq!(p.diagnostics().len(), 2);
}

#[test]
fn prompt_then_retries_until_the_handler_accepts() {
    let mut p = scripted(&["3", "", " x ", " 8 ", "10"]);
    assert_eq!(p.prompt_then("Even", even), Ok(8));
    assert_eq!(strings(p.diagnostics()), vec!["3 is odd", "'' is no number", "'x' is no number"]);
    assert_eq!(strings(p.prompts()), vec!["Even: ", "Even: ", "Even: ", "Even: "]);
    assert_eq!(p.remaining(), 1);
}

#[test]
fn prompt_then_ends_on_a_failed_read() {
    let script = vec![line("1"), LineResult::Failed(ReadFailure::Interrupted), line("2")];
    let mut p = Prompter::new(script, Environment { home: None });
    assert_eq!(p.prompt_then("Even", even), Err(ReadFailure::Interrupted));
    assert_eq!(strings(p.diagnostics()), vec!["1 is odd"]);
    assert_eq!(p.remaining(), 1);
    let mut p = scripted(&["1"]);
    assert_eq!(p.prompt_then("Even", even), Err(ReadFailure::EndOfInput));
    assert_eq!(p.prompts().len(), 2);
}

#[test]
fn prompt_then_with_a_closure() {
    let floor = 5u32;
    let mut p = scripted(&["4", "6"]);
    let r = p.prompt_then("Big", |text: String| match text.parse::<u32>() {
        Ok(n) if n > floor => Ok(n),
        _ => Err("too small".to_string()),
    });
    assert_eq!(r, Ok(6));
    assert_eq!(strings(p.diagnostics()), vec!["too small"]);
}

#[test]
fn required_step_decides_one_answer() {
    let env = Environment { home: None };
    assert_eq!(required_step::<u32>(line(" 30 "), &env), Step::Accept(30));
    assert_eq!(
        required_step::<u32>(line("abc"), &env),
        Step::Retry("invalid digit found in string".to_string())
    );
    assert_eq!(
        required_step::<u32>(line("  "), &env),
        Step::Retry("Value is required.".to_string())
    );
    assert_eq!(
        required_step::<bool>(LineResult::Failed(ReadFailure::Interrupted), &env),
        Step::Abort(ReadFailure::Interrupted)
    );
    let home = Environment { home: Some("/home/u".to_string()) };
    assert_eq!(
        required_step::<PathText>(line(" ~/x "), &home),
        Step::Accept(PathText { text: "/home/u/x".to_string() })
    );
}

#[test]
fn optional_step_decides_one_answer() {
    let env = Environment { home: None };
    assert_eq!(optional_step::<bool>(line("YES"), &env), Step::Accept(Some(true)));
    assert_eq!(optional_step::<bool>(line(""), &env), Step::Accept(None));
    assert_eq!(
        optional_step::<bool>(line("si"), &env),
        Step::Retry("Could not parse si as bool.".to_string())
    );
    assert_eq!(
        optional_step::<String>(LineResult::Failed(ReadFailure::EndOfInput), &env),
        Step::Abort(ReadFailure::EndOfInput)
    );
}

#[test]
fn steps_with_a_handler() {
    assert_eq!(then_step(line(" 4 "), even), Step::Accept(4));
    assert_eq!(then_step(line(""), even), Step::Retry("'' is no number".to_string()));
    assert_eq!(
        then_step(LineResult::Failed(ReadFailure::Interrupted), even),
        Step::Abort(ReadFailure::Interrupted)
    );
    assert_eq!(required_step_with(line("4"), even), Step::Accept(4));
    assert_eq!(required_step_with(line("5"), even), Step::Retry("5 is odd".to_string()));
    assert_eq!(
        required_step_with(line(" "), even),
        Step::Retry("Value is required.".to_string())
    );
    assert_eq!(optional_step_with(line(" "), even), Step::Accept(None));
    assert_eq!(optional_step_with(line("6"), even), Step::Accept(Some(6)));
    assert_eq!(optional_step_with(line("7"), even), Step::Retry("7 is odd".to_string()));
    assert_eq!(
        optional_step_with(LineResult::Failed(ReadFailure::EndOfInput), even),
        Step::Abort(ReadFailure::EndOfInput)
    );
}

#[test]
fn failure_policy() {
    assert_eq!(
        on_failure(FailurePolicy::Propagate, ReadFailure::Interrupted),
        FailureAction::Return(ReadFailure::Interrupted)
    );
    assert_eq!(
        on_failure(FailurePolicy::Propagate, ReadFailure::Error("io".to_string())),
        FailureAction::Return(ReadFailure::Error("io".to_string()))
    );
    assert_eq!(
        on_failure(FailurePolicy::Exit, ReadFailure::Interrupted),
        FailureAction::Exit { diagnostic: None, status: 1 }
    );
    assert_eq!(
        on_failure(FailurePolicy::Exit, ReadFailure::EndOfInput),
        FailureAction::Exit { diagnostic: Some("EOF".to_string()), status: 1 }
    );
    assert_eq!(
        on_failure(FailurePolicy::Exit, ReadFailure::Error("broken pipe".to_string())),
        FailureAction::Exit { diagnostic: Some("broken pipe".to_string()), status: 1 }
    );
}

#[test]
fn failure_diagnostics() {
    let f = ReadFailure::Error("io".to_string());
    assert_eq!(f.diagnostic(), Some("io".to_string()));
    assert_eq!(ReadFailure::Interrupted.diagnostic(), None);
    assert_eq!(ReadFailure::EndOfInput.diagnostic(), Some("EOF".to_string()));
}
