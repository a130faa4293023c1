//! The retry loop as mathematics: what a sequence of answers leads to.

use vstd::prelude::*;
use crate::line::FailureModel;

verus! {

/// What the engine makes of one answer of the line source.
pub enum Verdict<V> {
    /// The text was coerced into this value: the prompt ends.
    Accept(V),
    /// The text was rejected: print the diagnostic and ask again.
    Retry(Seq<char>),
    /// The read failed: the prompt ends without a value.
    Abort(FailureModel),
}

/// The whole course of one prompt.
pub struct Run<V> {
    /// The value accepted, or the failure that ended the prompt.
    pub outcome: Result<V, FailureModel>,
    /// How many answers were taken from the line source.
    pub consumed: nat,
    /// How many times the prompt was shown.
    pub asked: nat,
    /// The diagnostics printed, in order.
    pub diagnostics: Seq<Seq<char>>,
}

/// The course of a prompt whose successive answers get these verdicts.
/// Every `Retry` prints its diagnostic and moves on to the next answer; the
/// first `Accept` or `Abort` ends the prompt. Where the answers run out, the
/// prompt is shown once more and ends with `EndOfInput`.
pub open spec fn run<V>(verdicts: Seq<Verdict<V>>) -> Run<V>
    decreases verdicts.len(),
{
    if verdicts.len() == 0 {
        Run {
            outcome: Err(FailureModel::EndOfInput),
            consumed: 0,
            asked: 1,
            diagnostics: Seq::empty(),
        }
    } else {
        match verdicts[0] {
            Verdict::Accept(v) => Run {
                outcome: Ok(v),
                consumed: 1,
                asked: 1,
                diagnostics: Seq::empty(),
            },
            Verdict::Abort(f) => Run {
                outcome: Err(f),
                consumed: 1,
                asked: 1,
                diagnostics: Seq::empty(),
            },
            Verdict::Retry(d) => after_retries(seq![d], run(verdicts.drop_first())),
        }
    }
}

/// The course that begins with the rejections `diagnostics` and goes on as
/// `rest`.
pub open spec fn after_retries<V>(diagnostics: Seq<Seq<char>>, rest: Run<V>) -> Run<V> {
    Run {
        outcome: rest.outcome,
        consumed: diagnostics.len() + rest.consumed,
        asked: diagnostics.len() + rest.asked,
        diagnostics: diagnostics + rest.diagnostics,
    }
}

/// `count` copies of one text.
pub open spec fn repeated(text: Seq<char>, count: nat) -> Seq<Seq<char>> {
    Seq::new(count, |i: int| text)
}

/// Whether every verdict before position `k` is a rejection.
pub open spec fn all_retries<V>(verdicts: Seq<Verdict<V>>, k: int) -> bool {
    forall|j: int| 0 <= j < k ==> #[trigger] verdicts[j] is Retry
}

/// The diagnostics of the first `k` verdicts.
pub open spec fn retry_texts<V>(verdicts: Seq<Verdict<V>>, k: int) -> Seq<Seq<char>> {
    Seq::new(k as nat, |j: int| verdicts[j]->Retry_0)
}

/// A prompt ends at the first answer that is accepted or whose read failed:
/// it takes the answers up to that one and no more, has shown the prompt once
/// per answer, has printed the diagnostic of each rejection before it in
/// order, and returns the value accepted or the failure. A failed read is
/// never retried.
pub proof fn lemma_course_ends_at_first_decision<V>(verdicts: Seq<Verdict<V>>, k: int)
    requires
        0 <= k < verdicts.len(),
        all_retries(verdicts, k),
        !(verdicts[k] is Retry),
    ensures
        run(verdicts).consumed == k + 1,
        run(verdicts).asked == k + 1,
        run(verdicts).diagnostics == retry_texts(verdicts, k),
        verdicts[k] matches Verdict::Accept(v) ==> run(verdicts).outcome == Ok::<V, FailureModel>(v),
        verdicts[k] matches Verdict::Abort(f) ==> run(verdicts).outcome == Err::<V, FailureModel>(f),
    decreases k,
{
    if k == 0 {
        assert(run(verdicts).diagnostics =~= retry_texts(verdicts, k));
    } else {
        let rest = verdicts.drop_first();
        assert(verdicts[0] is Retry);
        assert(rest[k - 1] == verdicts[k]);
        assert(all_retries(rest, k - 1)) by {
            assert forall|j: int| 0 <= j < k - 1 implies #[trigger] rest[j] is Retry by {
                assert(rest[j] == verdicts[j + 1]);
            }
        }
        lemma_course_ends_at_first_decision(rest, k - 1);
        assert(run(verdicts).diagnostics =~= retry_texts(verdicts, k)) by {
            assert forall|j: int| 0 <= j < k - 1 implies #[trigger] rest[j] == verdicts[j + 1] by {}
        }
    }
}

/// Where every answer is rejected, the prompt takes them all, shows itself
/// once more, and ends with the end of the input.
pub proof fn lemma_course_without_decision<V>(verdicts: Seq<Verdict<V>>)
    requires
        all_retries(verdicts, verdicts.len() as int),
    ensures
        run(verdicts).outcome == Err::<V, FailureModel>(FailureModel::EndOfInput),
        run(verdicts).consumed == verdicts.len(),
        run(verdicts).asked == verdicts.len() + 1,
        run(verdicts).diagnostics == retry_texts(verdicts, verdicts.len() as int),
    decreases verdicts.len(),
{
    if verdicts.len() == 0 {
        assert(run(verdicts).diagnostics =~= retry_texts(verdicts, 0));
    } else {
        let rest = verdicts.drop_first();
        assert(verdicts[0] is Retry);
        assert(all_retries(rest, rest.len() as int)) by {
            assert forall|j: int| 0 <= j < rest.len() implies #[trigger] rest[j] is Retry by {
                assert(rest[j] == verdicts[j + 1]);
            }
        }
        lemma_course_without_decision(rest);
        assert(run(verdicts).diagnostics =~= retry_texts(verdicts, verdicts.len() as int)) by {
            assert forall|j: int| 0 <= j < rest.len() implies #[trigger] rest[j] == verdicts[j
                + 1] by {}
        }
    }
}

} // verus!
