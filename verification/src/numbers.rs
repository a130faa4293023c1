//! Coercion rules for the integer types: decimal text, within the range of
//! the type.

use vstd::prelude::*;
use vstd::string::*;
use crate::coerce::{default_suffix, suffix_for};
use crate::decimal::{
    describe, fault_text, int_parsed, int_text, lemma_int_round_trip, lemma_int_text_is_tight,
    parse_signed, parse_unsigned, write_int, write_magnitude,
};
use crate::engine::{run, Run};
use crate::laws::law_accepted_text_ends_the_prompt;
use crate::line::{Environment, EnvironmentModel, LineModel};
use crate::promptable::{required_verdicts, Completion, Promptable};
use crate::text::lemma_tight_text_is_trimmed;

verus! {

/// What `text` means as an integer between `min` and `max`: the integer, or
/// the diagnostic of its fault.
pub open spec fn int_coerced(text: Seq<char>, min: int, max: int) -> Result<int, Seq<char>> {
    match int_parsed(text, min, max) {
        Ok(v) => Ok(v),
        Err(fault) => Err(fault_text(fault)),
    }
}

impl Promptable for u8 {
    /// A decimal integer of the type's range.
    open spec fn parsed(text: Seq<char>, env: EnvironmentModel) -> Result<u8, Seq<char>> {
        match int_coerced(text, 0, u8::MAX as int) {
            Ok(v) => Ok(v as u8),
            Err(diagnostic) => Err(diagnostic),
        }
    }

    open spec fn default_hint(default: u8) -> Seq<char> {
        default_suffix(int_text(default as int))
    }

    open spec fn completer() -> Completion {
        Completion::Plain
    }

    fn parse(text: &str, env: &Environment) -> (r: Result<u8, String>) {
        match parse_unsigned(text, u8::MAX as u128) {
            Ok(v) => Ok(v as u8),
            Err(fault) => Err(describe(fault)),
        }
    }

    fn hint(default: &u8) -> (out: String) {
        suffix_for(write_magnitude(*default as u128).as_str())
    }

    fn completion() -> (c: Completion) {
        Completion::Plain
    }
}

impl Promptable for u16 {
    /// A decimal integer of the type's range.
    open spec fn parsed(text: Seq<char>, env: EnvironmentModel) -> Result<u16, Seq<char>> {
        match int_coerced(text, 0, u16::MAX as int) {
            Ok(v) => Ok(v as u16),
            Err(diagnostic) => Err(diagnostic),
        }
    }

    open spec fn default_hint(default: u16) -> Seq<char> {
        default_suffix(int_text(default as int))
    }

    open spec fn completer() -> Completion {
        Completion::Plain
    }

    fn parse(text: &str, env: &Environment) -> (r: Result<u16, String>) {
        match parse_unsigned(text, u16::MAX as u128) {
            Ok(v) => Ok(v as u16),
            Err(fault) => Err(describe(fault)),
        }
    }

    fn hint(default: &u16) -> (out: String) {
        suffix_for(write_magnitude(*default as u128).as_str())
    }

    fn completion() -> (c: Completion) {
        Completion::Plain
    }
}

impl Promptable for u32 {
    /// A decimal integer of the type's range.
    open spec fn parsed(text: Seq<char>, env: EnvironmentModel) -> Result<u32, Seq<char>> {
        match int_coerced(text, 0, u32::MAX as int) {
            Ok(v) => Ok(v as u32),
            Err(diagnostic) => Err(diagnostic),
        }
    }

    open spec fn default_hint(default: u32) -> Seq<char> {
        default_suffix(int_text(default as int))
    }

    open spec fn completer() -> Completion {
        Completion::Plain
    }

    fn parse(text: &str, env: &Environment) -> (r: Result<u32, String>) {
        match parse_unsigned(text, u32::MAX as u128) {
            Ok(v) => Ok(v as u32),
            Err(fault) => Err(describe(fault)),
        }
    }

    fn hint(default: &u32) -> (out: String) {
        suffix_for(write_magnitude(*default as u128).as_str())
    }

    fn completion() -> (c: Completion) {
        Completion::Plain
    }
}

impl Promptable for u64 {
    /// A decimal integer of the type's range.
    open spec fn parsed(text: Seq<char>, env: EnvironmentModel) -> Result<u64, Seq<char>> {
        match int_coerced(text, 0, u64::MAX as int) {
            Ok(v) => Ok(v as u64),
            Err(diagnostic) => Err(diagnostic),
        }
    }

    open spec fn default_hint(default: u64) -> Seq<char> {
        default_suffix(int_text(default as int))
    }

    open spec fn completer() -> Completion {
        Completion::Plain
    }

    fn parse(text: &str, env: &Environment) -> (r: Result<u64, String>) {
        match parse_unsigned(text, u64::MAX as u128) {
            Ok(v) => Ok(v as u64),
            Err(fault) => Err(describe(fault)),
        }
    }

    fn hint(default: &u64) -> (out: String) {
        suffix_for(write_magnitude(*default as u128).as_str())
    }

    fn completion() -> (c: Completion) {
        Completion::Plain
    }
}

impl Promptable for u128 {
    /// A decimal integer of the type's range.
    open spec fn parsed(text: Seq<char>, env: EnvironmentModel) -> Result<u128, Seq<char>> {
        match int_coerced(text, 0, u128::MAX as int) {
            Ok(v) => Ok(v as u128),
            Err(diagnostic) => Err(diagnostic),
        }
    }

    open spec fn default_hint(default: u128) -> Seq<char> {
        default_suffix(int_text(default as int))
    }

    open spec fn completer() -> Completion {
        Completion::Plain
    }

    fn parse(text: &str, env: &Environment) -> (r: Result<u128, String>) {
        match parse_unsigned(text, u128::MAX as u128) {
            Ok(v) => Ok(v as u128),
            Err(fault) => Err(describe(fault)),
        }
    }

    fn hint(default: &u128) -> (out: String) {
        suffix_for(write_magnitude(*default as u128).as_str())
    }

    fn completion() -> (c: Completion) {
        Completion::Plain
    }
}

impl Promptable for usize {
    /// A decimal integer of the type's range.
    open spec fn parsed(text: Seq<char>, env: EnvironmentModel) -> Result<usize, Seq<char>> {
        match int_coerced(text, 0, usize::MAX as int) {
            Ok(v) => Ok(v as usize),
            Err(diagnostic) => Err(diagnostic),
        }
    }

    open spec fn default_hint(default: usize) -> Seq<char> {
        default_suffix(int_text(default as int))
    }

    open spec fn completer() -> Completion {
        Completion::Plain
    }

    fn parse(text: &str, env: &Environment) -> (r: Result<usize, String>) {
        match parse_unsigned(text, usize::MAX as u128) {
            Ok(v) => Ok(v as usize),
            Err(fault) => Err(describe(fault)),
        }
    }

    fn hint(default: &usize) -> (out: String) {
        suffix_for(write_magnitude(*default as u128).as_str())
    }

    fn completion() -> (c: Completion) {
        Completion::Plain
    }
}

impl Promptable for i8 {
    /// A decimal integer of the type's range.
    open spec fn parsed(text: Seq<char>, env: EnvironmentModel) -> Result<i8, Seq<char>> {
        match int_coerced(text, i8::MIN as int, i8::MAX as int) {
            Ok(v) => Ok(v as i8),
            Err(diagnostic) => Err(diagnostic),
        }
    }

    open spec fn default_hint(default: i8) -> Seq<char> {
        default_suffix(int_text(default as int))
    }

    open spec fn completer() -> Completion {
        Completion::Plain
    }

    fn parse(text: &str, env: &Environment) -> (r: Result<i8, String>) {
        match parse_signed(text, i8::MIN as i128, i8::MAX as i128) {
            Ok(v) => Ok(v as i8),
            Err(fault) => Err(describe(fault)),
        }
    }

    fn hint(default: &i8) -> (out: String) {
        suffix_for(write_int(*default as i128).as_str())
    }

    fn completion() -> (c: Completion) {
        Completion::Plain
    }
}

impl Promptable for i16 {
    /// A decimal integer of the type's range.
    open spec fn parsed(text: Seq<char>, env: EnvironmentModel) -> Result<i16, Seq<char>> {
        match int_coerced(text, i16::MIN as int, i16::MAX as int) {
            Ok(v) => Ok(v as i16),
            Err(diagnostic) => Err(diagnostic),
        }
    }

    open spec fn default_hint(default: i16) -> Seq<char> {
        default_suffix(int_text(default as int))
    }

    open spec fn completer() -> Completion {
        Completion::Plain
    }

    fn parse(text: &str, env: &Environment) -> (r: Result<i16, String>) {
        match parse_signed(text, i16::MIN as i128, i16::MAX as i128) {
            Ok(v) => Ok(v as i16),
            Err(fault) => Err(describe(fault)),
        }
    }

    fn hint(default: &i16) -> (out: String) {
        suffix_for(write_int(*default as i128).as_str())
    }

    fn completion() -> (c: Completion) {
        Completion::Plain
    }
}

impl Promptable for i32 {
    /// A decimal integer of the type's range.
    open spec fn parsed(text: Seq<char>, env: EnvironmentModel) -> Result<i32, Seq<char>> {
        match int_coerced(text, i32::MIN as int, i32::MAX as int) {
            Ok(v) => Ok(v as i32),
            Err(diagnostic) => Err(diagnostic),
        }
    }

    open spec fn default_hint(default: i32) -> Seq<char> {
        default_suffix(int_text(default as int))
    }

    open spec fn completer() -> Completion {
        Completion::Plain
    }

    fn parse(text: &str, env: &Environment) -> (r: Result<i32, String>) {
        match parse_signed(text, i32::MIN as i128, i32::MAX as i128) {
            Ok(v) => Ok(v as i32),
            Err(fault) => Err(describe(fault)),
        }
    }

    fn hint(default: &i32) -> (out: String) {
        suffix_for(write_int(*default as i128).as_str())
    }

    fn completion() -> (c: Completion) {
        Completion::Plain
    }
}

impl Promptable for i64 {
    /// A decimal integer of the type's range.
    open spec fn parsed(text: Seq<char>, env: EnvironmentModel) -> Result<i64, Seq<char>> {
        match int_coerced(text, i64::MIN as int, i64::MAX as int) {
            Ok(v) => Ok(v as i64),
            Err(diagnostic) => Err(diagnostic),
        }
    }

    open spec fn default_hint(default: i64) -> Seq<char> {
        default_suffix(int_text(default as int))
    }

    open spec fn completer() -> Completion {
        Completion::Plain
    }

    fn parse(text: &str, env: &Environment) -> (r: Result<i64, String>) {
        match parse_signed(text, i64::MIN as i128, i64::MAX as i128) {
            Ok(v) => Ok(v as i64),
            Err(fault) => Err(describe(fault)),
        }
    }

    fn hint(default: &i64) -> (out: String) {
        suffix_for(write_int(*default as i128).as_str())
    }

    fn completion() -> (c: Completion) {
        Completion::Plain
    }
}

impl Promptable for i128 {
    /// A decimal integer of the type's range.
    open spec fn parsed(text: Seq<char>, env: EnvironmentModel) -> Result<i128, Seq<char>> {
        match int_coerced(text, i128::MIN as int, i128::MAX as int) {
            Ok(v) => Ok(v as i128),
            Err(diagnostic) => Err(diagnostic),
        }
    }

    open spec fn default_hint(default: i128) -> Seq<char> {
        default_suffix(int_text(default as int))
    }

    open spec fn completer() -> Completion {
        Completion::Plain
    }

    fn parse(text: &str, env: &Environment) -> (r: Result<i128, String>) {
        match parse_signed(text, i128::MIN as i128, i128::MAX as i128) {
            Ok(v) => Ok(v as i128),
            Err(fault) => Err(describe(fault)),
        }
    }

    fn hint(default: &i128) -> (out: String) {
        suffix_for(write_int(*default as i128).as_str())
    }

    fn completion() -> (c: Completion) {
        Completion::Plain
    }
}

impl Promptable for isize {
    /// A decimal integer of the type's range.
    open spec fn parsed(text: Seq<char>, env: EnvironmentModel) -> Result<isize, Seq<char>> {
        match int_coerced(text, isize::MIN as int, isize::MAX as int) {
            Ok(v) => Ok(v as isize),
            Err(diagnostic) => Err(diagnostic),
        }
    }

    open spec fn default_hint(default: isize) -> Seq<char> {
        default_suffix(int_text(default as int))
    }

    open spec fn completer() -> Completion {
        Completion::Plain
    }

    fn parse(text: &str, env: &Environment) -> (r: Result<isize, String>) {
        match parse_signed(text, isize::MIN as i128, isize::MAX as i128) {
            Ok(v) => Ok(v as isize),
            Err(fault) => Err(describe(fault)),
        }
    }

    fn hint(default: &isize) -> (out: String) {
        suffix_for(write_int(*default as i128).as_str())
    }

    fn completion() -> (c: Completion) {
        Completion::Plain
    }
}

/// Writing then reading a `u8`: the text that shows a value is coerced
/// back into the same value, and a prompt that is answered with it returns
/// the value after one read, with nothing printed.
pub proof fn law_round_trip_u8(v: u8, rest: Seq<LineModel>, env: EnvironmentModel)
    ensures
        <u8 as Promptable>::parsed(int_text(v as int), env) == Ok::<u8, Seq<char>>(v),
        run(required_verdicts::<u8>(seq![LineModel::Line(int_text(v as int))] + rest, env)) == (Run::<
            u8,
        > { outcome: Ok(v), consumed: 1, asked: 1, diagnostics: Seq::empty() }),
{
    lemma_int_round_trip(v as int, 0, u8::MAX as int);
    lemma_int_text_is_tight(v as int);
    lemma_tight_text_is_trimmed(int_text(v as int));
    law_accepted_text_ends_the_prompt::<u8>(int_text(v as int), rest, env);
}

/// Writing then reading a `u16`: the text that shows a value is coerced
/// back into the same value, and a prompt that is answered with it returns
/// the value after one read, with nothing printed.
pub proof fn law_round_trip_u16(v: u16, rest: Seq<LineModel>, env: EnvironmentModel)
    ensures
        <u16 as Promptable>::parsed(int_text(v as int), env) == Ok::<u16, Seq<char>>(v),
        run(required_verdicts::<u16>(seq![LineModel::Line(int_text(v as int))] + rest, env)) == (Run::<
            u16,
        > { outcome: Ok(v), consumed: 1, asked: 1, diagnostics: Seq::empty() }),
{
    lemma_int_round_trip(v as int, 0, u16::MAX as int);
    lemma_int_text_is_tight(v as int);
    lemma_tight_text_is_trimmed(int_text(v as int));
    law_accepted_text_ends_the_prompt::<u16>(int_text(v as int), rest, env);
}

/// Writing then reading a `u32`: the text that shows a value is coerced
/// back into the same value, and a prompt that is answered with it returns
/// the value after one read, with nothing printed.
pub proof fn law_round_trip_u32(v: u32, rest: Seq<LineModel>, env: EnvironmentModel)
    ensures
        <u32 as Promptable>::parsed(int_text(v as int), env) == Ok::<u32, Seq<char>>(v),
        run(required_verdicts::<u32>(seq![LineModel::Line(int_text(v as int))] + rest, env)) == (Run::<
            u32,
        > { outcome: Ok(v), consumed: 1, asked: 1, diagnostics: Seq::empty() }),
{
    lemma_int_round_trip(v as int, 0, u32::MAX as int);
    lemma_int_text_is_tight(v as int);
    lemma_tight_text_is_trimmed(int_text(v as int));
    law_accepted_text_ends_the_prompt::<u32>(int_text(v as int), rest, env);
}

/// Writing then reading a `u64`: the text that shows a value is coerced
/// back into the same value, and a prompt that is answered with it returns
/// the value after one read, with nothing printed.
pub proof fn law_round_trip_u64(v: u64, rest: Seq<LineModel>, env: EnvironmentModel)
    ensures
        <u64 as Promptable>::parsed(int_text(v as int), env) == Ok::<u64, Seq<char>>(v),
        run(required_verdicts::<u64>(seq![LineModel::Line(int_text(v as int))] + rest, env)) == (Run::<
            u64,
        > { outcome: Ok(v), consumed: 1, asked: 1, diagnostics: Seq::empty() }),
{
    lemma_int_round_trip(v as int, 0, u64::MAX as int);
    lemma_int_text_is_tight(v as int);
    lemma_tight_text_is_trimmed(int_text(v as int));
    law_accepted_text_ends_the_prompt::<u64>(int_text(v as int), rest, env);
}

/// Writing then reading a `u128`: the text that shows a value is coerced
/// back into the same value, and a prompt that is answered with it returns
/// the value after one read, with nothing printed.
pub proof fn law_round_trip_u128(v: u128, rest: Seq<LineModel>, env: EnvironmentModel)
    ensures
        <u128 as Promptable>::parsed(int_text(v as int), env) == Ok::<u128, Seq<char>>(v),
        run(required_verdicts::<u128>(seq![LineModel::Line(int_text(v as int))] + rest, env)) == (Run::<
            u128,
        > { outcome: Ok(v), consumed: 1, asked: 1, diagnostics: Seq::empty() }),
{
    lemma_int_round_trip(v as int, 0, u128::MAX as int);
    lemma_int_text_is_tight(v as int);
    lemma_tight_text_is_trimmed(int_text(v as int));
    law_accepted_text_ends_the_prompt::<u128>(int_text(v as int), rest, env);
}

/// Writing then reading a `usize`: the text that shows a value is coerced
/// back into the same value, and a prompt that is answered with it returns
/// the value after one read, with nothing printed.
pub proof fn law_round_trip_usize(v: usize, rest: Seq<LineModel>, env: EnvironmentModel)
    ensures
        <usize as Promptable>::parsed(int_text(v as int), env) == Ok::<usize, Seq<char>>(v),
        run(required_verdicts::<usize>(seq![LineModel::Line(int_text(v as int))] + rest, env)) == (Run::<
            usize,
        > { outcome: Ok(v), consumed: 1, asked: 1, diagnostics: Seq::empty() }),
{
    lemma_int_round_trip(v as int, 0, usize::MAX as int);
    lemma_int_text_is_tight(v as int);
    lemma_tight_text_is_trimmed(int_text(v as int));
    law_accepted_text_ends_the_prompt::<usize>(int_text(v as int), rest, env);
}

/// Writing then reading an `i8`: the text that shows a value is coerced
/// back into the same value, and a prompt that is answered with it returns
/// the value after one read, with nothing printed.
pub proof fn law_round_trip_i8(v: i8, rest: Seq<LineModel>, env: EnvironmentModel)
    ensures
        <i8 as Promptable>::parsed(int_text(v as int), env) == Ok::<i8, Seq<char>>(v),
        run(required_verdicts::<i8>(seq![LineModel::Line(int_text(v as int))] + rest, env)) == (Run::<
            i8,
        > { outcome: Ok(v), consumed: 1, asked: 1, diagnostics: Seq::empty() }),
{
    lemma_int_round_trip(v as int, i8::MIN as int, i8::MAX as int);
    lemma_int_text_is_tight(v as int);
    lemma_tight_text_is_trimmed(int_text(v as int));
    law_accepted_text_ends_the_prompt::<i8>(int_text(v as int), rest, env);
}

/// Writing then reading an `i16`: the text that shows a value is coerced
/// back into the same value, and a prompt that is answered with it returns
/// the value after one read, with nothing printed.
pub proof fn law_round_trip_i16(v: i16, rest: Seq<LineModel>, env: EnvironmentModel)
    ensures
        <i16 as Promptable>::parsed(int_text(v as int), env) == Ok::<i16, Seq<char>>(v),
        run(required_verdicts::<i16>(seq![LineModel::Line(int_text(v as int))] + rest, env)) == (Run::<
            i16,
        > { outcome: Ok(v), consumed: 1, asked: 1, diagnostics: Seq::empty() }),
{
    lemma_int_round_trip(v as int, i16::MIN as int, i16::MAX as int);
    lemma_int_text_is_tight(v as int);
    lemma_tight_text_is_trimmed(int_text(v as int));
    law_accepted_text_ends_the_prompt::<i16>(int_text(v as int), rest, env);
}

/// Writing then reading an `i32`: the text that shows a value is coerced
/// back into the same value, and a prompt that is answered with it returns
/// the value after one read, with nothing printed.
pub proof fn law_round_trip_i32(v: i32, rest: Seq<LineModel>, env: EnvironmentModel)
    ensures
        <i32 as Promptable>::parsed(int_text(v as int), env) == Ok::<i32, Seq<char>>(v),
        run(required_verdicts::<i32>(seq![LineModel::Line(int_text(v as int))] + rest, env)) == (Run::<
            i32,
        > { outcome: Ok(v), consumed: 1, asked: 1, diagnostics: Seq::empty() }),
{
    lemma_int_round_trip(v as int, i32::MIN as int, i32::MAX as int);
    lemma_int_text_is_tight(v as int);
    lemma_tight_text_is_trimmed(int_text(v as int));
    law_accepted_text_ends_the_prompt::<i32>(int_text(v as int), rest, env);
}

/// Writing then reading an `i64`: the text that shows a value is coerced
/// back into the same value, and a prompt that is answered with it returns
/// the value after one read, with nothing printed.
pub proof fn law_round_trip_i64(v: i64, rest: Seq<LineModel>, env: EnvironmentModel)
    ensures
        <i64 as Promptable>::parsed(int_text(v as int), env) == Ok::<i64, Seq<char>>(v),
        run(required_verdicts::<i64>(seq![LineModel::Line(int_text(v as int))] + rest, env)) == (Run::<
            i64,
        > { outcome: Ok(v), consumed: 1, asked: 1, diagnostics: Seq::empty() }),
{
    lemma_int_round_trip(v as int, i64::MIN as int, i64::MAX as int);
    lemma_int_text_is_tight(v as int);
    lemma_tight_text_is_trimmed(int_text(v as int));
    law_accepted_text_ends_the_prompt::<i64>(int_text(v as int), rest, env);
}

/// Writing then reading an `i128`: the text that shows a value is coerced
/// back into the same value, and a prompt that is answered with it returns
/// the value after one read, with nothing printed.
pub proof fn law_round_trip_i128(v: i128, rest: Seq<LineModel>, env: EnvironmentModel)
    ensures
        <i128 as Promptable>::parsed(int_text(v as int), env) == Ok::<i128, Seq<char>>(v),
        run(required_verdicts::<i128>(seq![LineModel::Line(int_text(v as int))] + rest, env)) == (Run::<
            i128,
        > { outcome: Ok(v), consumed: 1, asked: 1, diagnostics: Seq::empty() }),
{
    lemma_int_round_trip(v as int, i128::MIN as int, i128::MAX as int);
    lemma_int_text_is_tight(v as int);
    lemma_tight_text_is_trimmed(int_text(v as int));
    law_accepted_text_ends_the_prompt::<i128>(int_text(v as int), rest, env);
}

/// Writing then reading an `isize`: the text that shows a value is coerced
/// back into the same value, and a prompt that is answered with it returns
/// the value after one read, with nothing printed.
pub proof fn law_round_trip_isize(v: isize, rest: Seq<LineModel>, env: EnvironmentModel)
    ensures
        <isize as Promptable>::parsed(int_text(v as int), env) == Ok::<isize, Seq<char>>(v),
        run(required_verdicts::<isize>(seq![LineModel::Line(int_text(v as int))] + rest, env)) == (Run::<
            isize,
        > { outcome: Ok(v), consumed: 1, asked: 1, diagnostics: Seq::empty() }),
{
    lemma_int_round_trip(v as int, isize::MIN as int, isize::MAX as int);
    lemma_int_text_is_tight(v as int);
    lemma_tight_text_is_trimmed(int_text(v as int));
    law_accepted_text_ends_the_prompt::<isize>(int_text(v as int), rest, env);
}

} // verus!
