//! Promptable types, and the prompts for them.

use vstd::prelude::*;
use vstd::string::*;
use crate::engine::{run, Verdict};
use crate::line::{Environment, EnvironmentModel, FailureModel, LineResult, LineModel, ReadFailure};
use crate::prompter::{
    handled, lemma_handled_prompt_takes_the_course, rejected_by, value_required, Prompter,
};
use crate::text::{blank, trim, trimmed};

verus! {

/// Which flavour of line source a prompt asks for.
#[derive(Clone, Copy, Debug, PartialEq, Eq, Structural)]
pub enum Completion {
    /// A plain line editor.
    Plain,
    /// A line editor that completes file names.
    Filename,
}

/// The view of what a coercion returns.
pub open spec fn parse_outcome<T: View>(r: Result<T, String>) -> Result<T::V, Seq<char>> {
    match r {
        Ok(value) => Ok(value@),
        Err(diagnostic) => Err(diagnostic@),
    }
}

/// A type that a prompt can ask for: it says how a text is coerced into a
/// value, how a default value is shown in the message, and which flavour of
/// line source suits it.
pub trait Promptable: Sized + View {
    /// What `text` is coerced into: the value, or the diagnostic that rejects
    /// the text.
    spec fn parsed(text: Seq<char>, env: EnvironmentModel) -> Result<Self::V, Seq<char>>;

    /// What a prompt adds to its message to show `default`.
    spec fn default_hint(default: Self::V) -> Seq<char>;

    /// The flavour of line source to read a value of this type with.
    spec fn completer() -> Completion;

    /// Coerces `text` into a value, or rejects it with a diagnostic.
    fn parse(text: &str, env: &Environment) -> (r: Result<Self, String>)
        ensures
            parse_outcome(r) == Self::parsed(text@, env@),
    ;

    /// The text that shows `default` in a message.
    fn hint(default: &Self) -> (out: String)
        ensures
            out@ == Self::default_hint(default@),
    ;

    /// The flavour of line source to read a value of this type with.
    fn completion() -> (c: Completion)
        ensures
            c == Self::completer(),
    ;
}

/// What the engine decides after one read.
#[derive(Debug, PartialEq, Eq)]
pub enum Step<T> {
    /// The prompt ends with this value.
    Accept(T),
    /// Print the diagnostic and show the identical prompt again.
    Retry(String),
    /// The prompt ends with this failure; it is never retried.
    Abort(ReadFailure),
}

/// The view of a decision on a value.
pub open spec fn step_view<T: View>(step: Step<T>) -> Verdict<T::V> {
    match step {
        Step::Accept(value) => Verdict::Accept(value@),
        Step::Retry(diagnostic) => Verdict::Retry(diagnostic@),
        Step::Abort(failure) => Verdict::Abort(failure@),
    }
}

/// The view of a decision on an optional value.
pub open spec fn optional_step_view<T: View>(step: Step<Option<T>>) -> Verdict<Option<T::V>> {
    match step {
        Step::Accept(Some(value)) => Verdict::Accept(Some(value@)),
        Step::Accept(None) => Verdict::Accept(None),
        Step::Retry(diagnostic) => Verdict::Retry(diagnostic@),
        Step::Abort(failure) => Verdict::Abort(failure@),
    }
}

/// What one answer means to a prompt that needs a `T`: a failed read ends the
/// prompt, an empty text is rejected with `Value is required.`, and any other
/// text is coerced after trimming, its diagnostic rejecting it where that
/// fails.
pub open spec fn required_verdict<T: Promptable>(line: LineModel, env: EnvironmentModel) -> Verdict<
    T::V,
> {
    match line {
        LineModel::Failed(failure) => Verdict::Abort(failure),
        LineModel::Line(raw) => if blank(raw) {
            Verdict::Retry(value_required())
        } else {
            match T::parsed(trimmed(raw), env) {
                Ok(value) => Verdict::Accept(value),
                Err(diagnostic) => Verdict::Retry(diagnostic),
            }
        },
    }
}

/// What one answer means to a prompt for an optional `T`: as for a required
/// one, but an empty text is accepted as no value, without any coercion.
pub open spec fn optional_verdict<T: Promptable>(line: LineModel, env: EnvironmentModel) -> Verdict<
    Option<T::V>,
> {
    match line {
        LineModel::Failed(failure) => Verdict::Abort(failure),
        LineModel::Line(raw) => if blank(raw) {
            Verdict::Accept(None)
        } else {
            match T::parsed(trimmed(raw), env) {
                Ok(value) => Verdict::Accept(Some(value)),
                Err(diagnostic) => Verdict::Retry(diagnostic),
            }
        },
    }
}

/// The verdicts of [`required_verdict`] on each answer.
pub open spec fn required_verdicts<T: Promptable>(
    lines: Seq<LineModel>,
    env: EnvironmentModel,
) -> Seq<Verdict<T::V>> {
    Seq::new(lines.len(), |i: int| required_verdict::<T>(lines[i], env))
}

/// The verdicts of [`optional_verdict`] on each answer.
pub open spec fn optional_verdicts<T: Promptable>(
    lines: Seq<LineModel>,
    env: EnvironmentModel,
) -> Seq<Verdict<Option<T::V>>> {
    Seq::new(lines.len(), |i: int| optional_verdict::<T>(lines[i], env))
}

/// The view of what a prompt for a value returns.
pub open spec fn value_outcome<T: View>(r: Result<T, ReadFailure>) -> Result<T::V, FailureModel> {
    match r {
        Ok(value) => Ok(value@),
        Err(failure) => Err(failure@),
    }
}

/// The view of what a prompt for an optional value returns.
pub open spec fn optional_outcome<T: View>(r: Result<Option<T>, ReadFailure>) -> Result<
    Option<T::V>,
    FailureModel,
> {
    match r {
        Ok(Some(value)) => Ok(Some(value@)),
        Ok(None) => Ok(None),
        Err(failure) => Err(failure@),
    }
}

/// What a prompt with a default makes of the outcome of the optional prompt
/// behind it: the default takes the place of no value.
pub open spec fn default_outcome<V>(outcome: Result<Option<V>, FailureModel>, default: V) -> Result<
    V,
    FailureModel,
> {
    match outcome {
        Ok(Some(value)) => Ok(value),
        Ok(None) => Ok(default),
        Err(failure) => Err(failure),
    }
}

/// The message of a prompt that offers `default`.
pub open spec fn decorated<T: Promptable>(msg: Seq<char>, default: T::V) -> Seq<char> {
    msg + T::default_hint(default)
}

/// Decides what follows one answer to a prompt that needs a `T`.
pub fn required_step<T: Promptable>(answer: LineResult, env: &Environment) -> (step: Step<T>)
    ensures
        step_view(step) == required_verdict::<T>(answer@, env@),
{
    let handler = |text: String| -> (r: Result<T, String>)
        ensures
            parse_outcome(r) == required_handling::<T>(text@, env@),
        { require::<T>(text, env) };
    then_step(answer, handler)
}

/// Decides what follows one answer to a prompt for an optional `T`.
pub fn optional_step<T: Promptable>(answer: LineResult, env: &Environment) -> (step: Step<
    Option<T>,
>)
    ensures
        optional_step_view(step) == optional_verdict::<T>(answer@, env@),
{
    let handler = |text: String| -> (r: Result<Option<T>, String>)
        ensures
            optional_parse_outcome(r) == optional_handling::<T>(text@, env@),
        { allow::<T>(text, env) };
    then_step(answer, handler)
}

/// Decides what follows one answer to a prompt that hands every text to
/// `handler`: the trimmed text goes to `handler`, empty or not, and what it
/// returns is the decision.
pub fn then_step<U, F: Fn(String) -> Result<U, String>>(answer: LineResult, handler: F) -> (step:
    Step<U>)
    requires
        forall|text: String| call_requires(handler, (text,)),
    ensures
        match answer@ {
            LineModel::Failed(failure) => step matches Step::Abort(f) && f@ == failure,
            LineModel::Line(raw) => match step {
                Step::Accept(value) => handled(handler, raw, Ok::<U, String>(value)),
                Step::Retry(diagnostic) => handled(handler, raw, Err::<U, String>(diagnostic)),
                Step::Abort(_) => false,
            },
        },
{
    match answer {
        LineResult::Failed(failure) => Step::Abort(failure),
        LineResult::Line(raw) => {
            let text = trim(raw.as_str());
            match handler(text) {
                Ok(value) => Step::Accept(value),
                Err(diagnostic) => Step::Retry(diagnostic),
            }
        },
    }
}

/// Decides what follows one answer to a prompt that needs a value and
/// coerces with `parse`: an empty text is rejected with `Value is required.`
/// and never reaches `parse`.
pub fn required_step_with<U, F: Fn(String) -> Result<U, String>>(answer: LineResult, parse: F) -> (step:
    Step<U>)
    requires
        forall|text: String| call_requires(parse, (text,)),
    ensures
        match answer@ {
            LineModel::Failed(failure) => step matches Step::Abort(f) && f@ == failure,
            LineModel::Line(raw) => if blank(raw) {
                step matches Step::Retry(d) && d@ == value_required()
            } else {
                match step {
                    Step::Accept(value) => handled(parse, raw, Ok::<U, String>(value)),
                    Step::Retry(diagnostic) => handled(parse, raw, Err::<U, String>(diagnostic)),
                    Step::Abort(_) => false,
                }
            },
        },
{
    match answer {
        LineResult::Failed(failure) => Step::Abort(failure),
        LineResult::Line(raw) => {
            let text = trim(raw.as_str());
            if text.as_str().unicode_len() == 0 {
                Step::Retry(String::from_str("Value is required."))
            } else {
                match parse(text) {
                    Ok(value) => Step::Accept(value),
                    Err(diagnostic) => Step::Retry(diagnostic),
                }
            }
        },
    }
}

/// Decides what follows one answer to a prompt for an optional value that
/// coerces with `parse`: an empty text is accepted as no value and never
/// reaches `parse`.
pub fn optional_step_with<U, F: Fn(String) -> Result<U, String>>(answer: LineResult, parse: F) -> (step:
    Step<Option<U>>)
    requires
        forall|text: String| call_requires(parse, (text,)),
    ensures
        match answer@ {
            LineModel::Failed(failure) => step matches Step::Abort(f) && f@ == failure,
            LineModel::Line(raw) => if blank(raw) {
                step matches Step::Accept(None)
            } else {
                match step {
                    Step::Accept(Some(value)) => handled(parse, raw, Ok::<U, String>(value)),
                    Step::Accept(None) => false,
                    Step::Retry(diagnostic) => handled(parse, raw, Err::<U, String>(diagnostic)),
                    Step::Abort(_) => false,
                }
            },
        },
{
    match answer {
        LineResult::Failed(failure) => Step::Abort(failure),
        LineResult::Line(raw) => {
            let text = trim(raw.as_str());
            if text.as_str().unicode_len() == 0 {
                Step::Accept(None)
            } else {
                match parse(text) {
                    Ok(value) => Step::Accept(Some(value)),
                    Err(diagnostic) => Step::Retry(diagnostic),
                }
            }
        },
    }
}

/// What a required prompt makes of a trimmed text.
pub open spec fn required_handling<T: Promptable>(text: Seq<char>, env: EnvironmentModel) -> Result<
    T::V,
    Seq<char>,
> {
    if text.len() == 0 {
        Err(value_required())
    } else {
        T::parsed(text, env)
    }
}

/// What an optional prompt makes of a trimmed text.
pub open spec fn optional_handling<T: Promptable>(text: Seq<char>, env: EnvironmentModel) -> Result<
    Option<T::V>,
    Seq<char>,
> {
    if text.len() == 0 {
        Ok(None)
    } else {
        match T::parsed(text, env) {
            Ok(value) => Ok(Some(value)),
            Err(diagnostic) => Err(diagnostic),
        }
    }
}

/// The view of what the handler of an optional prompt returns.
pub open spec fn optional_parse_outcome<T: View>(r: Result<Option<T>, String>) -> Result<
    Option<T::V>,
    Seq<char>,
> {
    match r {
        Ok(Some(value)) => Ok(Some(value@)),
        Ok(None) => Ok(None),
        Err(diagnostic) => Err(diagnostic@),
    }
}

/// The handler of a required prompt: an empty text is rejected with
/// `Value is required.`, any other is coerced.
pub fn require<T: Promptable>(text: String, env: &Environment) -> (r: Result<T, String>)
    ensures
        parse_outcome(r) == required_handling::<T>(text@, env@),
{
    if text.as_str().unicode_len() == 0 {
        Err(String::from_str("Value is required."))
    } else {
        T::parse(text.as_str(), env)
    }
}

/// The handler of an optional prompt: an empty text is no value and is not
/// coerced, any other is.
pub fn allow<T: Promptable>(text: String, env: &Environment) -> (r: Result<Option<T>, String>)
    ensures
        optional_parse_outcome(r) == optional_handling::<T>(text@, env@),
{
    if text.as_str().unicode_len() == 0 {
        Ok(None)
    } else {
        match T::parse(text.as_str(), env) {
            Ok(value) => Ok(Some(value)),
            Err(diagnostic) => Err(diagnostic),
        }
    }
}

/// The message for a prompt that offers `default`.
pub fn decorate<T: Promptable>(msg: &str, default: &T) -> (out: String)
    ensures
        out@ == decorated::<T>(msg@, default@),
{
    let hint = T::hint(default);
    String::from_str(msg).concat(hint.as_str())
}

/// Prompts until an answer can be coerced into a `T`. An empty answer is
/// rejected with `Value is required.`, any other rejected text with the
/// diagnostic of its coercion; each rejection shows the identical prompt
/// again. A failed read ends the prompt and is returned.
pub fn prompt<T: Promptable>(prompter: &mut Prompter, msg: &str) -> (r: Result<T, ReadFailure>)
    ensures
        final(prompter).follows(
            *old(prompter),
            msg@,
            run(required_verdicts::<T>(old(prompter).pending(), old(prompter).env())),
        ),
        value_outcome(r) == run(
            required_verdicts::<T>(old(prompter).pending(), old(prompter).env()),
        ).outcome,
{
    let env = prompter.environment().duplicate();
    let handler = |text: String| -> (res: Result<T, String>)
        ensures
            parse_outcome(res) == required_handling::<T>(text@, env@),
        { require::<T>(text, &env) };
    let r = prompter.prompt_then(msg, handler);
    proof {
        let lines = old(prompter).pending();
        let verdicts = required_verdicts::<T>(lines, old(prompter).env());
        let base = old(prompter).printed().len() as int;
        assert forall|j: int| 0 <= j < prompter.printed().len() - base implies #[trigger] verdicts[j]
            == Verdict::<T::V>::Retry(prompter.printed()[base + j]) by {
            assert(rejected_by(handler, lines[j], prompter.printed()[base + j]));
        }
        lemma_handled_prompt_takes_the_course(*prompter, *old(prompter), msg@, handler, r, verdicts);
    }
    r
}

/// Prompts until an answer is empty or can be coerced into a `T`. An empty
/// answer ends the prompt with no value and is never coerced; a rejected text
/// shows the identical prompt again. A failed read ends the prompt and is
/// returned.
pub fn prompt_opt<T: Promptable>(prompter: &mut Prompter, msg: &str) -> (r: Result<
    Option<T>,
    ReadFailure,
>)
    ensures
        final(prompter).follows(
            *old(prompter),
            msg@,
            run(optional_verdicts::<T>(old(prompter).pending(), old(prompter).env())),
        ),
        optional_outcome(r) == run(
            optional_verdicts::<T>(old(prompter).pending(), old(prompter).env()),
        ).outcome,
{
    let env = prompter.environment().duplicate();
    let handler = |text: String| -> (res: Result<Option<T>, String>)
        ensures
            optional_parse_outcome(res) == optional_handling::<T>(text@, env@),
        { allow::<T>(text, &env) };
    let r = prompter.prompt_then(msg, handler);
    proof {
        let lines = old(prompter).pending();
        let verdicts = optional_verdicts::<T>(lines, old(prompter).env());
        let base = old(prompter).printed().len() as int;
        assert forall|j: int| 0 <= j < prompter.printed().len() - base implies #[trigger] verdicts[j]
            == Verdict::<Option<T::V>>::Retry(prompter.printed()[base + j]) by {
            assert(rejected_by(handler, lines[j], prompter.printed()[base + j]));
        }
        lemma_handled_prompt_takes_the_course(*prompter, *old(prompter), msg@, handler, r, verdicts);
    }
    r
}

/// What a prompt with a default returns for the outcome of the optional
/// prompt behind it: the default where that found no value.
pub fn or_default<T: Promptable>(answer: Result<Option<T>, ReadFailure>, default: T) -> (r: Result<
    T,
    ReadFailure,
>)
    ensures
        match answer {
            Ok(Some(value)) => r == Ok::<T, ReadFailure>(value),
            Ok(None) => r == Ok::<T, ReadFailure>(default),
            Err(failure) => r == Err::<T, ReadFailure>(failure),
        },
{
    match answer {
        Ok(Some(value)) => Ok(value),
        Ok(None) => Ok(default),
        Err(failure) => Err(failure),
    }
}

/// Prompts for an optional `T` under a message that shows `default`, and
/// returns `default` itself where the answer is empty.
pub fn prompt_default<T: Promptable>(prompter: &mut Prompter, msg: &str, default: T) -> (r: Result<
    T,
    ReadFailure,
>)
    ensures
        final(prompter).follows(
            *old(prompter),
            decorated::<T>(msg@, default@),
            run(optional_verdicts::<T>(old(prompter).pending(), old(prompter).env())),
        ),
        value_outcome(r) == default_outcome(
            run(optional_verdicts::<T>(old(prompter).pending(), old(prompter).env())).outcome,
            default@,
        ),
        run(optional_verdicts::<T>(old(prompter).pending(), old(prompter).env())).outcome == Ok::<
            Option<T::V>,
            FailureModel,
        >(None) ==> r == Ok::<T, ReadFailure>(default),
{
    let shown = decorate::<T>(msg, &default);
    let answer = prompt_opt::<T>(prompter, shown.as_str());
    or_default(answer, default)
}

} // verus!
