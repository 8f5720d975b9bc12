//! What an argument looks like inside a command line: the units that stand
//! for a value, stated as functions on sequences.

use vstd::prelude::*;
use crate::units::{
    backslashes_end, is_separator, lemma_run_end_unique, repeated, BACKSLASH, QUOTE, SPACE,
};

verus! {

/// Whether `value` holds a space or a tab.
pub open spec fn contains_separator(value: Seq<u16>) -> bool {
    exists|i: int| 0 <= i < value.len() && is_separator(#[trigger] value[i])
}

/// Whether `value` is written in quotes: because the caller asks for it,
/// because it is empty, or because it holds a space or a tab.
pub open spec fn needs_quotes(value: Seq<u16>, force_quotes: bool) -> bool {
    force_quotes || value.len() == 0 || contains_separator(value)
}

/// Whether the run of backslashes that begins at `i` reaches a quote or the
/// end of `value`.
pub open spec fn run_meets_quote(value: Seq<u16>, i: int) -> bool {
    let k = backslashes_end(value, i);
    k >= value.len() || value[k] == QUOTE
}

/// The units of `value` from index `i` on as they stand between quotes.
///
/// A quote gets a backslash before it. A backslash is doubled where its run
/// reaches a quote of the value or the closing quote, so that the run does
/// not escape that quote. Every other unit stands for itself.
pub open spec fn escaped_from(value: Seq<u16>, i: int) -> Seq<u16>
    decreases value.len() - i,
{
    if !(0 <= i < value.len()) {
        Seq::empty()
    } else if value[i] == QUOTE {
        seq![BACKSLASH, QUOTE] + escaped_from(value, i + 1)
    } else if value[i] == BACKSLASH && run_meets_quote(value, i) {
        seq![BACKSLASH, BACKSLASH] + escaped_from(value, i + 1)
    } else {
        seq![value[i]] + escaped_from(value, i + 1)
    }
}

/// The units that stand for `value` in a command line.
///
/// A raw value stands for itself. Otherwise a value that needs quotes
/// stands between two quotes, escaped; one that needs none stands for
/// itself.
pub open spec fn encoded_arg(value: Seq<u16>, force_quotes: bool, raw: bool) -> Seq<u16> {
    if !raw && needs_quotes(value, force_quotes) {
        seq![QUOTE] + escaped_from(value, 0) + seq![QUOTE]
    } else {
        value
    }
}

/// The command line of a list of values: each encoded, with one space
/// between neighbours.
pub open spec fn encoded_args(values: Seq<Seq<u16>>, force_quotes: bool, raw: bool) -> Seq<u16>
    decreases values.len(),
{
    if values.len() == 0 {
        Seq::empty()
    } else if values.len() == 1 {
        encoded_arg(values[0], force_quotes, raw)
    } else {
        encoded_args(values.drop_last(), force_quotes, raw) + seq![SPACE] + encoded_arg(
            values.last(),
            force_quotes,
            raw,
        )
    }
}

/// The values of a list of owned arguments.
pub open spec fn values_of(args: Seq<Vec<u16>>) -> Seq<Seq<u16>> {
    Seq::new(args.len(), |i: int| args[i]@)
}

/// The units that stand for `value` as the name of the executable: the
/// value itself, between quotes where it needs them. Nothing is escaped.
pub open spec fn encoded_arg_zero(value: Seq<u16>, force_quotes: bool) -> Seq<u16> {
    if needs_quotes(value, force_quotes) {
        seq![QUOTE] + value + seq![QUOTE]
    } else {
        value
    }
}

/// A whole run of backslashes is written twice over where it reaches a
/// quote or the end of the value, and once where it does not.
pub proof fn lemma_escaped_run(value: Seq<u16>, i: int, k: int)
    requires
        0 <= i <= k <= value.len(),
        forall|j: int| i <= j < k ==> #[trigger] value[j] == BACKSLASH,
        k < value.len() ==> value[k] != BACKSLASH,
    ensures
        escaped_from(value, i) == repeated(
            BACKSLASH,
            if k >= value.len() || value[k] == QUOTE {
                2 * (k - i)
            } else {
                k - i
            },
        ) + escaped_from(value, k),
    decreases k - i,
{
    if i < k {
        lemma_run_end_unique(value, i, k, |w: u16| w == BACKSLASH);
        lemma_escaped_run(value, i + 1, k);
    }
}

} // verus!
