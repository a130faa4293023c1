//! What holds of every prompt, whatever the answers.

use vstd::prelude::*;
use crate::coerce::{
    bool_parsed, char_parsed, lemma_yes_excludes_no, not_a_bool, says_no, says_yes,
};
use crate::engine::{
    after_retries, all_retries, lemma_course_ends_at_first_decision, repeated, run, Run, Verdict,
};
use crate::line::{EnvironmentModel, FailureModel, LineModel};
use crate::nonzero::{zero_refused, Integer, NonZeroInt};
use crate::path::expanded;
use crate::promptable::{
    default_outcome, optional_verdict, optional_verdicts, required_verdict, required_verdicts,
    Promptable,
};
use crate::prompter::{nonempty_verdicts, prompt_text, value_required, Prompter};
use crate::text::{
    blank, lemma_tight_text_is_trimmed, lemma_trim_end_shape, lemma_trim_start_shape, lowered,
    trim_end, trim_start, trimmed, white_space,
};

verus! {

/// The text that reaches a coercion is trimmed for good: trimming it again
/// changes nothing.
pub proof fn law_trimming_is_idempotent(raw: Seq<char>)
    ensures
        trimmed(trimmed(raw)) == trimmed(raw),
{
    lemma_trim_start_shape(raw);
    lemma_trim_end_shape(trim_start(raw));
    let t = trimmed(raw);
    assert(trim_start(t) == t);
    assert(trim_end(t) == t);
}

/// A failed read is never retried: where every answer before it was
/// rejected, the prompt ends with that failure and takes no further answer.
pub proof fn law_failed_read_ends_the_prompt<T: Promptable>(
    lines: Seq<LineModel>,
    env: EnvironmentModel,
    k: int,
)
    requires
        0 <= k < lines.len(),
        lines[k] is Failed,
        all_retries(required_verdicts::<T>(lines, env), k),
        all_retries(optional_verdicts::<T>(lines, env), k),
    ensures
        run(required_verdicts::<T>(lines, env)).outcome == Err::<T::V, FailureModel>(
            lines[k]->Failed_0,
        ),
        run(required_verdicts::<T>(lines, env)).consumed == k + 1,
        run(optional_verdicts::<T>(lines, env)).outcome == Err::<Option<T::V>, FailureModel>(
            lines[k]->Failed_0,
        ),
        run(optional_verdicts::<T>(lines, env)).consumed == k + 1,
{
    let required = required_verdicts::<T>(lines, env);
    assert(required[k] == required_verdict::<T>(lines[k], env));
    lemma_course_ends_at_first_decision(required, k);
    let optional = optional_verdicts::<T>(lines, env);
    assert(optional[k] == optional_verdict::<T>(lines[k], env));
    lemma_course_ends_at_first_decision(optional, k);
}

/// Every course shows the prompt once for each diagnostic it printed and once
/// more, and never takes more answers than there are.
pub proof fn law_one_prompt_per_read<V>(verdicts: Seq<Verdict<V>>)
    ensures
        run(verdicts).asked == run(verdicts).diagnostics.len() + 1,
        run(verdicts).consumed <= verdicts.len(),
        run(verdicts).consumed <= run(verdicts).asked <= run(verdicts).consumed + 1,
        run(verdicts).outcome is Ok ==> run(verdicts).asked == run(verdicts).consumed,
    decreases verdicts.len(),
{
    if verdicts.len() > 0 {
        law_one_prompt_per_read(verdicts.drop_first());
    }
}

/// A text that is not empty and has no white space at its ends is returned
/// by a prompt as it was entered, and so is one character that is no white
/// space: after one read, and with nothing printed.
pub proof fn law_round_trip_of_text_and_char(
    text: Seq<char>,
    c: char,
    rest: Seq<LineModel>,
    env: EnvironmentModel,
)
    requires
        text.len() > 0,
        !white_space(text[0]),
        !white_space(text.last()),
        !white_space(c),
    ensures
        <String as Promptable>::parsed(text, env) == Ok::<Seq<char>, Seq<char>>(text),
        char_parsed(seq![c]) == Ok::<char, Seq<char>>(c),
        run(required_verdicts::<String>(seq![LineModel::Line(text)] + rest, env)) == (Run::<
            Seq<char>,
        > { outcome: Ok(text), consumed: 1, asked: 1, diagnostics: Seq::empty() }),
        run(required_verdicts::<char>(seq![LineModel::Line(seq![c])] + rest, env)) == (Run::<
            char,
        > { outcome: Ok(c), consumed: 1, asked: 1, diagnostics: Seq::empty() }),
{
    lemma_tight_text_is_trimmed(text);
    lemma_tight_text_is_trimmed(seq![c]);
    law_accepted_text_ends_the_prompt::<String>(text, rest, env);
    law_accepted_text_ends_the_prompt::<char>(seq![c], rest, env);
}

/// A required prompt for a text is the prompt for a text that is not empty:
/// the two take the same course on every script.
pub proof fn law_text_prompt_is_nonempty(lines: Seq<LineModel>, env: EnvironmentModel)
    ensures
        run(required_verdicts::<String>(lines, env)) == run(nonempty_verdicts(lines)),
{
    assert(required_verdicts::<String>(lines, env) =~= nonempty_verdicts(lines));
}

/// A leading `~` gives way to the home directory where one is known, and the
/// rest of the text stays; without a home directory, and without a leading
/// `~`, the text is the path as it stands.
pub proof fn law_tilde_expansion(rest: Seq<char>, text: Seq<char>, home: Seq<char>)
    ensures
        expanded(seq!['~'] + rest, Some(home)) == home + rest,
        expanded(text, None) == text,
        text.len() == 0 || text[0] != '~' ==> expanded(text, Some(home)) == text,
{
    assert((seq!['~'] + rest).skip(1) =~= rest);
}

/// Whether every answer of `lines` is an empty text.
pub open spec fn all_blank(lines: Seq<LineModel>) -> bool {
    forall|i: int|
        0 <= i < lines.len() ==> (#[trigger] lines[i] matches LineModel::Line(raw) && blank(raw))
}

/// An optional prompt ends at once on an empty answer: it returns no value,
/// takes that one answer and no further one, and prints nothing.
pub proof fn law_optional_ends_on_empty<T: Promptable>(lines: Seq<LineModel>, env: EnvironmentModel)
    requires
        lines.len() > 0,
        lines[0] matches LineModel::Line(raw) && blank(raw),
    ensures
        run(optional_verdicts::<T>(lines, env)) == (Run::<Option<T::V>> {
            outcome: Ok(None),
            consumed: 1,
            asked: 1,
            diagnostics: Seq::empty(),
        }),
{
    assert(optional_verdicts::<T>(lines, env)[0] == optional_verdict::<T>(lines[0], env));
}

/// A required prompt takes and discards every empty answer, printing
/// `Value is required.` for each, and then goes on as if it had begun at the
/// first answer after them.
pub proof fn law_required_skips_empty<T: Promptable>(
    blanks: Seq<LineModel>,
    rest: Seq<LineModel>,
    env: EnvironmentModel,
)
    requires
        all_blank(blanks),
    ensures
        run(required_verdicts::<T>(blanks + rest, env)) == after_retries(
            repeated(value_required(), blanks.len()),
            run(required_verdicts::<T>(rest, env)),
        ),
    decreases blanks.len(),
{
    let after = run(required_verdicts::<T>(rest, env));
    if blanks.len() == 0 {
        assert(blanks + rest =~= rest);
        assert(repeated(value_required(), 0) + after.diagnostics =~= after.diagnostics);
    } else {
        let all = blanks + rest;
        let verdicts = required_verdicts::<T>(all, env);
        let fewer = blanks.drop_first();
        assert(all[0] == blanks[0]);
        assert(verdicts[0] == required_verdict::<T>(all[0], env));
        assert(verdicts[0] == Verdict::<T::V>::Retry(value_required()));
        assert(all_blank(fewer)) by {
            assert forall|i: int| 0 <= i < fewer.len() implies (#[trigger] fewer[i] matches LineModel::Line(
                raw,
            ) && blank(raw)) by {
                assert(fewer[i] == blanks[i + 1]);
            }
        }
        assert(verdicts.drop_first() =~= required_verdicts::<T>(fewer + rest, env)) by {
            assert(all.drop_first() =~= fewer + rest);
        }
        law_required_skips_empty::<T>(fewer, rest, env);
        let inner = repeated(value_required(), fewer.len());
        assert(seq![value_required()] + (inner + after.diagnostics) =~= repeated(
            value_required(),
            blanks.len(),
        ) + after.diagnostics);
    }
}

/// A text that the coercion rejects is never accepted: the prompt prints the
/// diagnostic and goes on with the next answer.
pub proof fn law_rejected_text_is_asked_again<T: Promptable>(
    raw: Seq<char>,
    rest: Seq<LineModel>,
    env: EnvironmentModel,
)
    requires
        !blank(raw),
        T::parsed(trimmed(raw), env) is Err,
    ensures
        run(required_verdicts::<T>(seq![LineModel::Line(raw)] + rest, env)) == after_retries(
            seq![T::parsed(trimmed(raw), env)->Err_0],
            run(required_verdicts::<T>(rest, env)),
        ),
        run(optional_verdicts::<T>(seq![LineModel::Line(raw)] + rest, env)) == after_retries(
            seq![T::parsed(trimmed(raw), env)->Err_0],
            run(optional_verdicts::<T>(rest, env)),
        ),
{
    let all = seq![LineModel::Line(raw)] + rest;
    assert(all[0] == LineModel::Line(raw));
    assert(all.drop_first() =~= rest);
    let required = required_verdicts::<T>(all, env);
    assert(required[0] == required_verdict::<T>(all[0], env));
    assert(required.drop_first() =~= required_verdicts::<T>(rest, env));
    let optional = optional_verdicts::<T>(all, env);
    assert(optional[0] == optional_verdict::<T>(all[0], env));
    assert(optional.drop_first() =~= optional_verdicts::<T>(rest, env));
}

/// A boolean coercion accepts a text exactly where its lowercase form is one
/// of `true`, `yes`, `y` (true) or `false`, `no`, `n` (false); any other text
/// is rejected, with a diagnostic that quotes the text as it was entered.
pub proof fn law_bool_accepts_six_words(text: Seq<char>)
    ensures
        bool_parsed(text) == Ok::<bool, Seq<char>>(true) <==> says_yes(lowered(text)),
        bool_parsed(text) == Ok::<bool, Seq<char>>(false) <==> says_no(lowered(text)),
        bool_parsed(text) is Err <==> !says_yes(lowered(text)) && !says_no(lowered(text)),
        bool_parsed(text) is Err ==> bool_parsed(text)->Err_0 == not_a_bool(text),
{
    lemma_yes_excludes_no(lowered(text));
}

/// A text that the coercion accepts ends the prompt at once: one answer
/// taken, the prompt shown once, nothing printed, and the value returned.
pub proof fn law_accepted_text_ends_the_prompt<T: Promptable>(
    raw: Seq<char>,
    rest: Seq<LineModel>,
    env: EnvironmentModel,
)
    requires
        !blank(raw),
        T::parsed(trimmed(raw), env) is Ok,
    ensures
        run(required_verdicts::<T>(seq![LineModel::Line(raw)] + rest, env)) == (Run::<T::V> {
            outcome: Ok(T::parsed(trimmed(raw), env)->Ok_0),
            consumed: 1,
            asked: 1,
            diagnostics: Seq::empty(),
        }),
        run(optional_verdicts::<T>(seq![LineModel::Line(raw)] + rest, env)) == (Run::<
            Option<T::V>,
        > {
            outcome: Ok(Some(T::parsed(trimmed(raw), env)->Ok_0)),
            consumed: 1,
            asked: 1,
            diagnostics: Seq::empty(),
        }),
{
    let all = seq![LineModel::Line(raw)] + rest;
    assert(all[0] == LineModel::Line(raw));
    assert(required_verdicts::<T>(all, env)[0] == required_verdict::<T>(all[0], env));
    assert(optional_verdicts::<T>(all, env)[0] == optional_verdict::<T>(all[0], env));
}

/// A boolean prompt whose first answer, trimmed and in lowercase, is one of
/// `true`, `yes`, `y` returns true, and false where it is one of `false`,
/// `no`, `n`: after one read, and with nothing printed.
pub proof fn law_bool_prompt_accepts_the_six_words(
    raw: Seq<char>,
    rest: Seq<LineModel>,
    env: EnvironmentModel,
)
    requires
        says_yes(lowered(trimmed(raw))) || says_no(lowered(trimmed(raw))),
    ensures
        run(required_verdicts::<bool>(seq![LineModel::Line(raw)] + rest, env)) == (Run::<bool> {
            outcome: Ok(says_yes(lowered(trimmed(raw)))),
            consumed: 1,
            asked: 1,
            diagnostics: Seq::empty(),
        }),
        run(optional_verdicts::<bool>(seq![LineModel::Line(raw)] + rest, env)) == (Run::<
            Option<bool>,
        > {
            outcome: Ok(Some(says_yes(lowered(trimmed(raw))))),
            consumed: 1,
            asked: 1,
            diagnostics: Seq::empty(),
        }),
{
    lemma_yes_excludes_no(lowered(trimmed(raw)));
    law_accepted_text_ends_the_prompt::<bool>(raw, rest, env);
}

/// A prompt for an integer that must not be zero takes what the prompt for
/// the integer type would take, but for zero, which it rejects with a
/// diagnostic of its own and asks again.
pub proof fn law_nonzero_prompt_refuses_only_zero<T: Integer>(
    raw: Seq<char>,
    rest: Seq<LineModel>,
    env: EnvironmentModel,
)
    requires
        !blank(raw),
        T::parsed(trimmed(raw), env) is Ok,
    ensures
        !T::zero(T::parsed(trimmed(raw), env)->Ok_0) ==> run(
            required_verdicts::<NonZeroInt<T>>(seq![LineModel::Line(raw)] + rest, env),
        ) == (Run::<T::V> {
            outcome: Ok(T::parsed(trimmed(raw), env)->Ok_0),
            consumed: 1,
            asked: 1,
            diagnostics: Seq::empty(),
        }),
        T::zero(T::parsed(trimmed(raw), env)->Ok_0) ==> run(
            required_verdicts::<NonZeroInt<T>>(seq![LineModel::Line(raw)] + rest, env),
        ) == after_retries(
            seq![zero_refused()],
            run(required_verdicts::<NonZeroInt<T>>(rest, env)),
        ),
{
    if T::zero(T::parsed(trimmed(raw), env)->Ok_0) {
        law_rejected_text_is_asked_again::<NonZeroInt<T>>(raw, rest, env);
    } else {
        law_accepted_text_ends_the_prompt::<NonZeroInt<T>>(raw, rest, env);
    }
}

/// A prompt with a default returns exactly the default on an empty answer,
/// whatever the coercion would make of any text: nothing is coerced.
pub proof fn law_default_on_empty<T: Promptable>(
    lines: Seq<LineModel>,
    env: EnvironmentModel,
    default: T::V,
)
    requires
        lines.len() > 0,
        lines[0] matches LineModel::Line(raw) && blank(raw),
    ensures
        default_outcome(run(optional_verdicts::<T>(lines, env)).outcome, default) == Ok::<
            T::V,
            FailureModel,
        >(default),
        run(optional_verdicts::<T>(lines, env)).consumed == 1,
{
    law_optional_ends_on_empty::<T>(lines, env);
}

/// Every prompt shown in the course of one request is the identical text:
/// the message never changes from one retry to the next.
pub proof fn law_prompt_is_identical_on_retry<V>(
    after: Prompter,
    before: Prompter,
    msg: Seq<char>,
    course: Run<V>,
)
    requires
        after.follows(before, msg, course),
    ensures
        after.shown().len() == before.shown().len() + course.asked,
        forall|i: int|
            before.shown().len() <= i < after.shown().len() ==> after.shown()[i] == prompt_text(
                msg,
            ),
        forall|i: int| 0 <= i < before.shown().len() ==> after.shown()[i] == before.shown()[i],
{
}

} // verus!
