//! A prompter that replays a script of answers and keeps a transcript.

use vstd::prelude::*;
use vstd::string::*;
use crate::engine::{
    after_retries, all_retries, lemma_course_ends_at_first_decision,
    lemma_course_without_decision, repeated, run, Run, Verdict,
};
use crate::line::{
    script_view, texts, Environment, EnvironmentModel, FailureModel, LineResult, LineModel,
    ReadFailure,
};
use crate::promptable::{prompt, required_verdicts};
use crate::text::{blank, trim, trimmed};

verus! {

/// The prompt as the line source shows it: the message, a colon and a space.
pub open spec fn prompt_text(msg: Seq<char>) -> Seq<char> {
    msg + seq![':', ' ']
}

/// The diagnostic for an empty answer to a prompt that needs a value.
pub open spec fn value_required() -> Seq<char> {
    "Value is required."@
}

/// The prompt text for `msg`.
pub fn render(msg: &str) -> (out: String)
    ensures
        out@ == prompt_text(msg@),
{
    proof {
        reveal_strlit(": ");
    }
    let out = String::from_str(msg).concat(": ");
    assert(out@ =~= prompt_text(msg@));
    out
}

/// The view of what a prompt for a text returns.
pub open spec fn text_outcome(r: Result<String, ReadFailure>) -> Result<Seq<char>, FailureModel> {
    match r {
        Ok(text) => Ok(text@),
        Err(failure) => Err(failure@),
    }
}

/// The view of what a prompt for an optional text returns.
pub open spec fn optional_text_outcome(r: Result<Option<String>, ReadFailure>) -> Result<
    Option<Seq<char>>,
    FailureModel,
> {
    match r {
        Ok(Some(text)) => Ok(Some(text@)),
        Ok(None) => Ok(None),
        Err(failure) => Err(failure@),
    }
}

/// What one answer means to a single read: the trimmed text, or the failure.
pub open spec fn once_verdict(line: LineModel) -> Verdict<Seq<char>> {
    match line {
        LineModel::Line(raw) => Verdict::Accept(trimmed(raw)),
        LineModel::Failed(failure) => Verdict::Abort(failure),
    }
}

/// What one answer means to a single optional read: an empty text is no value.
pub open spec fn opt_verdict(line: LineModel) -> Verdict<Option<Seq<char>>> {
    match line {
        LineModel::Line(raw) => if blank(raw) {
            Verdict::Accept(None)
        } else {
            Verdict::Accept(Some(trimmed(raw)))
        },
        LineModel::Failed(failure) => Verdict::Abort(failure),
    }
}

/// What one answer means to a prompt that needs a text: an empty one is
/// rejected.
pub open spec fn nonempty_verdict(line: LineModel) -> Verdict<Seq<char>> {
    match line {
        LineModel::Line(raw) => if blank(raw) {
            Verdict::Retry(value_required())
        } else {
            Verdict::Accept(trimmed(raw))
        },
        LineModel::Failed(failure) => Verdict::Abort(failure),
    }
}

/// The verdicts of [`once_verdict`] on each answer.
pub open spec fn once_verdicts(lines: Seq<LineModel>) -> Seq<Verdict<Seq<char>>> {
    Seq::new(lines.len(), |i: int| once_verdict(lines[i]))
}

/// The verdicts of [`opt_verdict`] on each answer.
pub open spec fn opt_verdicts(lines: Seq<LineModel>) -> Seq<Verdict<Option<Seq<char>>>> {
    Seq::new(lines.len(), |i: int| opt_verdict(lines[i]))
}

/// The verdicts of [`nonempty_verdict`] on each answer.
pub open spec fn nonempty_verdicts(lines: Seq<LineModel>) -> Seq<Verdict<Seq<char>>> {
    Seq::new(lines.len(), |i: int| nonempty_verdict(lines[i]))
}

/// The course of a single read: exactly one verdict counts.
pub open spec fn first_only<V>(verdicts: Seq<Verdict<V>>) -> Run<V> {
    if verdicts.len() > 0 {
        run(verdicts.take(1))
    } else {
        run(verdicts)
    }
}

/// Whether `handler` may return `result` for the trimmed text of `raw`.
pub open spec fn handled<U, F: Fn(String) -> Result<U, String>>(
    handler: F,
    raw: Seq<char>,
    result: Result<U, String>,
) -> bool {
    exists|text: String| text@ == trimmed(raw) && call_ensures(handler, (text,), result)
}

/// Whether `line` is a text that `handler` may reject with `diagnostic`.
pub open spec fn rejected_by<U, F: Fn(String) -> Result<U, String>>(
    handler: F,
    line: LineModel,
    diagnostic: Seq<char>,
) -> bool {
    line matches LineModel::Line(raw) && exists|d: String|
        d@ == diagnostic && handled(handler, raw, Err::<U, String>(d))
}

/// A line source that yields the answers of a script, one per read, and then
/// reports the end of the input. It records every prompt shown and every
/// diagnostic printed.
pub struct Prompter {
    lines: Vec<LineResult>,
    prompts: Vec<String>,
    diagnostics: Vec<String>,
    env: Environment,
}

impl Prompter {
    /// The answers not yet taken, in order.
    pub closed spec fn pending(&self) -> Seq<LineModel> {
        script_view(self.lines@)
    }

    /// The prompts shown so far, in order.
    pub closed spec fn shown(&self) -> Seq<Seq<char>> {
        texts(self.prompts@)
    }

    /// The diagnostics printed so far, in order.
    pub closed spec fn printed(&self) -> Seq<Seq<char>> {
        texts(self.diagnostics@)
    }

    /// The environment that coercions consult.
    pub closed spec fn env(&self) -> EnvironmentModel {
        self.env@
    }

    /// `self` is `before` after a prompt for `msg` that took the given course:
    /// the answers consumed are gone, the identical prompt text was shown once
    /// per read, and the diagnostics were printed in order.
    pub open spec fn follows<V>(&self, before: Prompter, msg: Seq<char>, course: Run<V>) -> bool {
        &&& self.env() == before.env()
        &&& course.consumed <= before.pending().len()
        &&& self.pending() == before.pending().skip(course.consumed as int)
        &&& self.shown() == before.shown() + repeated(prompt_text(msg), course.asked)
        &&& self.printed() == before.printed() + course.diagnostics
    }

    /// `self` is `before` after a prompt for `msg` that handed each answer to
    /// `handler` and ended with `r`: every answer but the last consumed was a
    /// text that `handler` rejected, its diagnostic printed in its turn; the
    /// last one is the text that `handler` accepted, or the failed read; and
    /// where the answers ran out, the prompt was shown once more and ended with
    /// `EndOfInput`. The identical prompt text was shown for every read.
    pub open spec fn follows_then<U, F: Fn(String) -> Result<U, String>>(
        &self,
        before: Prompter,
        msg: Seq<char>,
        handler: F,
        r: Result<U, ReadFailure>,
    ) -> bool {
        let retries = self.printed().len() - before.printed().len();
        let taken = before.pending().len() - self.pending().len();
        let asked = self.shown().len() - before.shown().len();
        &&& self.env() == before.env()
        &&& 0 <= retries <= taken <= before.pending().len()
        &&& self.pending() == before.pending().skip(taken)
        &&& self.printed().take(before.printed().len() as int) == before.printed()
        &&& self.shown() == before.shown() + repeated(prompt_text(msg), asked as nat)
        &&& forall|j: int|
            0 <= j < retries ==> rejected_by(
                handler,
                #[trigger] before.pending()[j],
                self.printed()[before.printed().len() + j],
            )
        &&& match r {
            Ok(value) => {
                &&& taken == retries + 1
                &&& asked == taken
                &&& before.pending()[retries] matches LineModel::Line(raw)
                &&& handled(handler, raw, Ok::<U, String>(value))
            },
            Err(failure) => if taken == retries {
                &&& taken == before.pending().len()
                &&& asked == taken + 1
                &&& failure@ == FailureModel::EndOfInput
            } else {
                &&& taken == retries + 1
                &&& asked == taken
                &&& before.pending()[retries] == LineModel::Failed(failure@)
            },
        }
    }

    /// A prompter that will yield `lines`, with nothing shown or printed yet.
    pub fn new(lines: Vec<LineResult>, env: Environment) -> (p: Prompter)
        ensures
            p.pending() == script_view(lines@),
            p.shown() == Seq::<Seq<char>>::empty(),
            p.printed() == Seq::<Seq<char>>::empty(),
            p.env() == env@,
    {
        let p = Prompter { lines, prompts: Vec::new(), diagnostics: Vec::new(), env };
        assert(p.shown() =~= Seq::<Seq<char>>::empty());
        assert(p.printed() =~= Seq::<Seq<char>>::empty());
        p
    }

    /// How many answers are left in the script.
    pub fn remaining(&self) -> (n: usize)
        ensures
            n == self.pending().len(),
    {
        self.lines.len()
    }

    /// The prompts shown so far.
    pub fn prompts(&self) -> (list: &Vec<String>)
        ensures
            texts(list@) == self.shown(),
    {
        &self.prompts
    }

    /// The diagnostics printed so far.
    pub fn diagnostics(&self) -> (list: &Vec<String>)
        ensures
            texts(list@) == self.printed(),
    {
        &self.diagnostics
    }

    /// The environment that coercions consult.
    pub fn environment(&self) -> (env: &Environment)
        ensures
            env@ == self.env(),
    {
        &self.env
    }

    /// Shows the prompt for `msg` and takes the next answer as it stands.
    pub fn ask(&mut self, msg: &str) -> (answer: LineResult)
        ensures
            final(self).env() == old(self).env(),
            final(self).printed() == old(self).printed(),
            final(self).shown() == old(self).shown().push(prompt_text(msg@)),
            old(self).pending().len() == 0 ==> answer@ == LineModel::Failed(FailureModel::EndOfInput)
                && final(self).pending() == old(self).pending(),
            old(self).pending().len() > 0 ==> answer@ == old(self).pending()[0]
                && final(self).pending() == old(self).pending().drop_first(),
    {
        let shown = render(msg);
        self.prompts.push(shown);
        assert(texts(self.prompts@) =~= texts(old(self).prompts@).push(prompt_text(msg@)));
        if self.lines.len() > 0 {
            let answer = self.lines.remove(0);
            assert(self.pending() =~= old(self).pending().drop_first());
            answer
        } else {
            LineResult::Failed(ReadFailure::EndOfInput)
        }
    }

    /// Prints one diagnostic.
    pub fn print(&mut self, diagnostic: String)
        ensures
            final(self).env() == old(self).env(),
            final(self).pending() == old(self).pending(),
            final(self).shown() == old(self).shown(),
            final(self).printed() == old(self).printed().push(diagnostic@),
    {
        self.diagnostics.push(diagnostic);
        assert(texts(self.diagnostics@) =~= texts(old(self).diagnostics@).push(diagnostic@));
    }

    /// Prompts once and returns the answer without its leading and trailing
    /// white space. A failed read is returned as it is.
    pub fn prompt_once(&mut self, msg: &str) -> (r: Result<String, ReadFailure>)
        ensures
            final(self).follows(*old(self), msg@, first_only(once_verdicts(old(self).pending()))),
            text_outcome(r) == first_only(once_verdicts(old(self).pending())).outcome,
    {
        let ghost verdicts = once_verdicts(old(self).pending());
        proof {
            lemma_single(verdicts);
            assert(old(self).shown() + repeated(prompt_text(msg@), 1) =~= old(self).shown().push(
                prompt_text(msg@),
            ));
            assert(old(self).printed() + Seq::<Seq<char>>::empty() =~= old(self).printed());
            assert(old(self).pending().skip(0) =~= old(self).pending());
            if old(self).pending().len() > 0 {
                assert(old(self).pending().skip(1) =~= old(self).pending().drop_first());
            }
        }
        match self.ask(msg) {
            LineResult::Line(raw) => Ok(trim(raw.as_str())),
            LineResult::Failed(failure) => Err(failure),
        }
    }

    /// Prompts once; an empty answer is no value.
    pub fn prompt_opt(&mut self, msg: &str) -> (r: Result<Option<String>, ReadFailure>)
        ensures
            final(self).follows(*old(self), msg@, first_only(opt_verdicts(old(self).pending()))),
            optional_text_outcome(r) == first_only(opt_verdicts(old(self).pending())).outcome,
    {
        let ghost lines = old(self).pending();
        proof {
            lemma_single(opt_verdicts(lines));
            lemma_single(once_verdicts(lines));
        }
        match self.prompt_once(msg) {
            Ok(text) => {
                if text.as_str().unicode_len() == 0 {
                    Ok(None)
                } else {
                    Ok(Some(text))
                }
            },
            Err(failure) => Err(failure),
        }
    }

    /// Prompts until the answer is not empty, printing `Value is required.`
    /// for each empty one. A failed read ends the prompt.
    pub fn prompt_nonempty(&mut self, msg: &str) -> (r: Result<String, ReadFailure>)
        ensures
            final(self).follows(*old(self), msg@, run(nonempty_verdicts(old(self).pending()))),
            text_outcome(r) == run(nonempty_verdicts(old(self).pending())).outcome,
    {
        proof {
            let lines = old(self).pending();
            assert(required_verdicts::<String>(lines, old(self).env()) =~= nonempty_verdicts(
                lines,
            ));
        }
        prompt::<String>(self, msg)
    }

    /// Prompts until `handler` accepts the trimmed answer, printing the
    /// diagnostic of each rejection and showing the identical prompt again. A
    /// failed read ends the prompt.
    pub fn prompt_then<U, F: Fn(String) -> Result<U, String>>(&mut self, msg: &str, handler: F) -> (r:
        Result<U, ReadFailure>)
        requires
            forall|text: String| call_requires(handler, (text,)),
        ensures
            final(self).follows_then(*old(self), msg@, handler, r),
    {
        let ghost lines = old(self).pending();
        let ghost mut retries: int = 0;
        proof {
            assert(lines.skip(0) =~= lines);
            assert(old(self).shown() + repeated(prompt_text(msg@), 0) =~= old(self).shown());
            assert(self.printed().take(old(self).printed().len() as int) =~= old(self).printed());
        }
        loop
            invariant
                self.env() == old(self).env(),
                lines == old(self).pending(),
                0 <= retries <= lines.len(),
                self.pending() == lines.skip(retries),
                self.shown() == old(self).shown() + repeated(prompt_text(msg@), retries as nat),
                self.printed().len() == old(self).printed().len() + retries,
                self.printed().take(old(self).printed().len() as int) == old(self).printed(),
                forall|j: int|
                    0 <= j < retries ==> rejected_by(
                        handler,
                        #[trigger] lines[j],
                        self.printed()[old(self).printed().len() + j],
                    ),
                forall|text: String| call_requires(handler, (text,)),
            decreases self.pending().len(),
        {
            let ghost before = *self;
            proof {
                assert(before.shown().push(prompt_text(msg@)) =~= old(self).shown() + repeated(
                    prompt_text(msg@),
                    (retries + 1) as nat,
                ));
                if retries < lines.len() {
                    assert(before.pending()[0] == lines[retries]);
                    assert(lines.skip(retries).drop_first() =~= lines.skip(retries + 1));
                }
            }
            match self.ask(msg) {
                LineResult::Failed(failure) => {
                    return Err(failure);
                },
                LineResult::Line(raw) => {
                    let text = trim(raw.as_str());
                    match handler(text) {
                        Ok(value) => {
                            assert(handled(handler, raw@, Ok::<U, String>(value)));
                            return Ok(value);
                        },
                        Err(diagnostic) => {
                            assert(handled(handler, raw@, Err::<U, String>(diagnostic)));
                            assert(rejected_by(handler, lines[retries], diagnostic@));
                            self.print(diagnostic);
                            proof {
                                let base = old(self).printed().len() as int;
                                assert(self.printed().take(base) =~= before.printed().take(base));
                                assert forall|j: int| 0 <= j < retries + 1 implies rejected_by(
                                    handler,
                                    #[trigger] lines[j],
                                    self.printed()[base + j],
                                ) by {
                                    if j < retries {
                                        assert(self.printed()[base + j] == before.printed()[base
                                            + j]);
                                    }
                                }
                                retries = retries + 1;
                            }
                        },
                    }
                },
            }
        }
    }
}

impl Default for Prompter {
    /// A prompter without answers and without a home directory.
    fn default() -> (p: Prompter)
        ensures
            p.pending() == Seq::<LineModel>::empty(),
            p.shown() == Seq::<Seq<char>>::empty(),
            p.printed() == Seq::<Seq<char>>::empty(),
            p.env().home is None,
    {
        let p = Prompter::new(Vec::new(), Environment { home: None });
        assert(p.pending() =~= Seq::<LineModel>::empty());
        p
    }
}

/// A prompt that handed its answers to a handler has taken the course of
/// `verdicts`, where these agree with what the handler did: a rejection with
/// the diagnostic printed for each answer that was retried, and a decision at
/// the answer that ended the prompt.
pub proof fn lemma_handled_prompt_takes_the_course<U, V, F: Fn(String) -> Result<U, String>>(
    after: Prompter,
    before: Prompter,
    msg: Seq<char>,
    handler: F,
    r: Result<U, ReadFailure>,
    verdicts: Seq<Verdict<V>>,
)
    requires
        after.follows_then(before, msg, handler, r),
        verdicts.len() == before.pending().len(),
        forall|j: int|
            0 <= j < after.printed().len() - before.printed().len() ==> #[trigger] verdicts[j]
                == Verdict::<V>::Retry(after.printed()[before.printed().len() + j]),
        after.printed().len() - before.printed().len() < verdicts.len() ==> !(verdicts[after.printed().len()
            - before.printed().len()] is Retry),
    ensures
        after.follows(before, msg, run(verdicts)),
        ({
            let k = after.printed().len() - before.printed().len();
            if k < verdicts.len() {
                match verdicts[k] {
                    Verdict::Accept(v) => run(verdicts).outcome == Ok::<V, FailureModel>(v),
                    Verdict::Abort(f) => run(verdicts).outcome == Err::<V, FailureModel>(f),
                    Verdict::Retry(_) => false,
                }
            } else {
                run(verdicts).outcome == Err::<V, FailureModel>(FailureModel::EndOfInput)
            }
        }),
{
    let k = after.printed().len() - before.printed().len();
    assert(all_retries(verdicts, k));
    if k < verdicts.len() {
        lemma_course_ends_at_first_decision(verdicts, k);
    } else {
        lemma_course_without_decision(verdicts);
    }
    assert(after.printed() =~= before.printed() + run(verdicts).diagnostics);
}

/// The course over a single verdict, spelled out.
pub proof fn lemma_single<V>(verdicts: Seq<Verdict<V>>)
    ensures
        verdicts.len() == 0 ==> first_only(verdicts) == (Run::<V> {
            outcome: Err(FailureModel::EndOfInput),
            consumed: 0,
            asked: 1,
            diagnostics: Seq::empty(),
        }),
        verdicts.len() > 0 ==> first_only(verdicts) == match verdicts[0] {
            Verdict::Accept(v) => Run::<V> {
                outcome: Ok(v),
                consumed: 1,
                asked: 1,
                diagnostics: Seq::empty(),
            },
            Verdict::Abort(f) => Run::<V> {
                outcome: Err(f),
                consumed: 1,
                asked: 1,
                diagnostics: Seq::empty(),
            },
            Verdict::Retry(d) => Run::<V> {
                outcome: Err(FailureModel::EndOfInput),
                consumed: 1,
                asked: 2,
                diagnostics: seq![d],
            },
        },
{
    if verdicts.len() > 0 {
        let one = verdicts.take(1);
        assert(one[0] == verdicts[0]);
        assert(one.drop_first().len() == 0);
        match verdicts[0] {
            Verdict::Retry(d) => {
                let rest = run(one.drop_first());
                assert(rest.diagnostics.len() == 0);
                assert(seq![d] + rest.diagnostics =~= seq![d]);
                assert(run(one) == after_retries(seq![d], rest));
            },
            _ => {},
        }
    }
}

} // verus!
