//! Writing arguments into a command line and splitting that command line
//! gives the arguments back.

use vstd::prelude::*;
use crate::grammar::{executable_scan, general_scan, general_tokens, token_texts, tokenize, Scan};
use crate::quoting::{
    contains_separator, encoded_arg, encoded_arg_zero, encoded_args, escaped_from,
    lemma_escaped_run, needs_quotes,
};
use crate::units::{
    backslashes_end, lemma_run_end_bounds, lemma_run_end_unique, repeated, BACKSLASH, NUL, QUOTE,
    SPACE,
};

verus! {

/// Inside quotes, the escaped units of a value read back as the value, and
/// the quote after them switches quote mode off.
///
/// The buffer is `pre`, then the escaped units of `value` from `i` on, then
/// `post`, which begins with the closing quote.
proof fn lemma_scan_escaped(
    pre: Seq<u16>,
    value: Seq<u16>,
    i: int,
    post: Seq<u16>,
    text: Seq<u16>,
)
    requires
        0 <= i <= value.len(),
        post.len() > 0,
        post[0] == QUOTE,
        post.len() > 1 ==> post[1] != QUOTE,
    ensures
        ({
            let s = pre + escaped_from(value, i) + post;
            general_scan(s, pre.len() as int, text, true) == general_scan(
                s,
                (pre.len() + escaped_from(value, i).len() + 1) as int,
                text + value.subrange(i, value.len() as int),
                false,
            )
        }),
    decreases value.len() - i,
{
    let s = pre + escaped_from(value, i) + post;
    let p = pre.len() as int;
    let k = backslashes_end(value, i);
    lemma_run_end_bounds(value, i, |w: u16| w == BACKSLASH);
    let n = k - i;
    lemma_escaped_run(value, i, k);
    let rest = value.subrange(i, value.len() as int);
    if k >= value.len() {
        assert(rest =~= repeated(BACKSLASH, n));
        if n > 0 {
            lemma_run_end_unique(s, p + 1, p + 2 * n, |w: u16| w == BACKSLASH);
            assert(general_scan(s, p, text, true) == general_scan(
                s,
                p + 2 * n,
                text + repeated(BACKSLASH, n),
                true,
            ));
        }
    } else if value[k] == QUOTE {
        let head = repeated(BACKSLASH, 2 * n) + seq![BACKSLASH, QUOTE];
        assert(s =~= (pre + head) + escaped_from(value, k + 1) + post);
        lemma_run_end_unique(s, p + 1, p + 2 * n + 1, |w: u16| w == BACKSLASH);
        let taken = text + repeated(BACKSLASH, n) + seq![QUOTE];
        lemma_scan_escaped(pre + head, value, k + 1, post, taken);
        assert(taken + value.subrange(k + 1, value.len() as int) =~= text + rest);
    } else {
        let head = repeated(BACKSLASH, n) + seq![value[k]];
        assert(s =~= (pre + head) + escaped_from(value, k + 1) + post);
        let run = text + repeated(BACKSLASH, n);
        if n > 0 {
            lemma_run_end_unique(s, p + 1, p + n, |w: u16| w == BACKSLASH);
            assert(general_scan(s, p, text, true) == general_scan(s, p + n, run, true));
        }
        let taken = run.push(value[k]);
        lemma_scan_escaped(pre + head, value, k + 1, post, taken);
        assert(taken + value.subrange(k + 1, value.len() as int) =~= text + rest);
    }
}

/// Outside quotes, a value without quotes, spaces and tabs reads back as
/// itself, if no quote follows it.
///
/// The buffer is `pre`, then `value`, then `post`.
proof fn lemma_scan_plain(pre: Seq<u16>, value: Seq<u16>, i: int, post: Seq<u16>, text: Seq<u16>)
    requires
        0 <= i <= value.len(),
        !value.contains(QUOTE),
        !contains_separator(value),
        post.len() > 0 ==> post[0] != QUOTE && post[0] != BACKSLASH,
    ensures
        ({
            let s = pre + value + post;
            general_scan(s, pre.len() + i, text, false) == general_scan(
                s,
                (pre.len() + value.len()) as int,
                text + value.subrange(i, value.len() as int),
                false,
            )
        }),
    decreases value.len() - i,
{
    let s = pre + value + post;
    let p = pre.len() as int;
    let rest = value.subrange(i, value.len() as int);
    if i < value.len() {
        if value[i] == BACKSLASH {
            let k = backslashes_end(value, i + 1);
            lemma_run_end_bounds(value, i + 1, |w: u16| w == BACKSLASH);
            lemma_run_end_unique(s, p + i + 1, p + k, |w: u16| w == BACKSLASH);
            let taken = text + repeated(BACKSLASH, k - i);
            lemma_scan_plain(pre, value, k, post, taken);
            assert(taken + value.subrange(k, value.len() as int) =~= text + rest);
        } else {
            let taken = text.push(value[i]);
            lemma_scan_plain(pre, value, i + 1, post, taken);
            assert(taken + value.subrange(i + 1, value.len() as int) =~= text + rest);
        }
    }
}

/// Whether splitting gives `value` back once it has been written with
/// `force_quotes`: it is written in quotes, or it holds no quote.
pub open spec fn reads_back(value: Seq<u16>, force_quotes: bool) -> bool {
    needs_quotes(value, force_quotes) || !value.contains(QUOTE)
}

/// One written value, followed by a space or by the end of the buffer,
/// reads back as one token that holds the value.
proof fn lemma_scan_encoded(pre: Seq<u16>, value: Seq<u16>, force_quotes: bool, post: Seq<u16>)
    requires
        reads_back(value, force_quotes),
        post.len() > 0 ==> post[0] == SPACE,
    ensures
        ({
            let s = pre + encoded_arg(value, force_quotes, false) + post;
            general_scan(s, pre.len() as int, Seq::empty(), false) == Scan {
                text: value,
                end: (pre.len() + encoded_arg(value, force_quotes, false).len()) as int,
                in_quotes: false,
            }
        }),
{
    let s = pre + encoded_arg(value, force_quotes, false) + post;
    let none = Seq::<u16>::empty();
    assert(none + value.subrange(0, value.len() as int) =~= value);
    if needs_quotes(value, force_quotes) {
        let body = escaped_from(value, 0);
        let tail = seq![QUOTE] + post;
        assert(s =~= (pre + seq![QUOTE]) + body + tail);
        lemma_scan_escaped(pre + seq![QUOTE], value, 0, tail, none);
    } else {
        lemma_scan_plain(pre, value, 0, post, none);
    }
}

/// A list of two or more values is written as its first value, a space, and
/// the rest of the list.
proof fn lemma_encoded_args_front(values: Seq<Seq<u16>>, force_quotes: bool, raw: bool)
    requires
        values.len() >= 2,
    ensures
        encoded_args(values, force_quotes, raw) == encoded_arg(values[0], force_quotes, raw)
            + seq![SPACE] + encoded_args(values.skip(1), force_quotes, raw),
    decreases values.len(),
{
    let init = values.drop_last();
    let last = encoded_arg(values.last(), force_quotes, raw);
    assert(encoded_args(values, force_quotes, raw) == encoded_args(init, force_quotes, raw)
        + seq![SPACE] + last);
    if values.len() > 2 {
        lemma_encoded_args_front(init, force_quotes, raw);
        assert(init.skip(1) =~= values.skip(1).drop_last());
    }
}

/// A written list that follows `pre` in a buffer splits, from the end of
/// `pre` on, into the values of the list.
proof fn lemma_tokens_of_encoded(pre: Seq<u16>, values: Seq<Seq<u16>>, force_quotes: bool)
    requires
        forall|i: int| 0 <= i < values.len() ==> reads_back(#[trigger] values[i], force_quotes),
        values.len() > 0 ==> values.last().len() > 0,
    ensures
        token_texts(
            general_tokens(pre + encoded_args(values, force_quotes, false), pre.len() as int),
        ) == values,
    decreases values.len(),
{
    let s = pre + encoded_args(values, force_quotes, false);
    let p = pre.len() as int;
    let none = Seq::<u16>::empty();
    if values.len() > 0 {
        let first = encoded_arg(values[0], force_quotes, false);
        let end = p + first.len();
        if values.len() == 1 {
            lemma_scan_encoded(pre, values[0], force_quotes, none);
        } else {
            let others = values.skip(1);
            let tail = encoded_args(others, force_quotes, false);
            lemma_encoded_args_front(values, force_quotes, false);
            assert(s =~= pre + first + (seq![SPACE] + tail));
            lemma_scan_encoded(pre, values[0], force_quotes, seq![SPACE] + tail);
            // The next token begins right after the one space.
            if others.len() >= 2 {
                lemma_encoded_args_front(others, force_quotes, false);
            }
            // The rest of the list follows by induction.
            lemma_tokens_of_encoded(pre + first + seq![SPACE], others, force_quotes);
            assert(s =~= (pre + first + seq![SPACE]) + tail);
            let later = general_tokens(s, end + 1);
            assert(token_texts(general_tokens(s, p)) =~= values) by {
                assert forall|i: int| 0 <= i < values.len() implies token_texts(
                    general_tokens(s, p),
                )[i] == values[i] by {
                    if i > 0 {
                        assert(token_texts(later)[i - 1] == others[i - 1]);
                    }
                }
            }
        }
    }
}

/// Writing a list of values into a command line and splitting that command
/// line under the general rule gives the values back, in order.
///
/// This holds of every list in which no value holds a zero unit, each value
/// that holds a quote is written in quotes, and the last value is not
/// empty. A value with a quote but without quotes around it is written as
/// it is, so the quote would be read as the start of a quoted part; and a
/// closing quote at the very end of the buffer leaves no pending quote, so
/// an empty last value would leave no token.
pub proof fn lemma_round_trip(values: Seq<Seq<u16>>, force_quotes: bool)
    requires
        forall|i: int| 0 <= i < values.len() ==> !(#[trigger] values[i]).contains(NUL),
        forall|i: int| 0 <= i < values.len() ==> reads_back(#[trigger] values[i], force_quotes),
        values.len() > 0 ==> values.last().len() > 0,
    ensures
        token_texts(tokenize(encoded_args(values, force_quotes, false), false)) == values,
{
    lemma_tokens_of_encoded(Seq::empty(), values, force_quotes);
}

/// A value that is not empty and holds no space and no tab is written as
/// it is when quotes are not forced: no unit is added.
pub proof fn lemma_simple_value_unchanged(value: Seq<u16>)
    requires
        value.len() > 0,
        !contains_separator(value),
    ensures
        encoded_arg(value, false, false) == value,
{
}

/// Under the executable-name rule, units that hold no quote are taken as
/// they are: all of them inside quotes, and outside quotes all that are no
/// space and no tab.
///
/// The buffer is `pre`, then `value`, then `post`.
proof fn lemma_scan_name(
    pre: Seq<u16>,
    value: Seq<u16>,
    i: int,
    post: Seq<u16>,
    text: Seq<u16>,
    in_quotes: bool,
)
    requires
        0 <= i <= value.len(),
        !value.contains(QUOTE),
        !in_quotes ==> !contains_separator(value),
    ensures
        ({
            let s = pre + value + post;
            executable_scan(s, pre.len() + i, text, in_quotes) == executable_scan(
                s,
                (pre.len() + value.len()) as int,
                text + value.subrange(i, value.len() as int),
                in_quotes,
            )
        }),
    decreases value.len() - i,
{
    let s = pre + value + post;
    let rest = value.subrange(i, value.len() as int);
    if i < value.len() {
        let taken = text.push(value[i]);
        lemma_scan_name(pre, value, i + 1, post, taken, in_quotes);
        assert(taken + value.subrange(i + 1, value.len() as int) =~= text + rest);
    }
}

/// The written name of an executable, followed by a space or by the end of
/// the buffer, reads back under the executable-name rule as one token that
/// holds the name.
proof fn lemma_scan_arg_zero(name: Seq<u16>, force_quotes: bool, post: Seq<u16>)
    requires
        !name.contains(QUOTE),
        post.len() > 0 ==> post[0] == SPACE,
    ensures
        ({
            let s = encoded_arg_zero(name, force_quotes) + post;
            executable_scan(s, 0, Seq::empty(), false) == Scan {
                text: name,
                end: encoded_arg_zero(name, force_quotes).len() as int,
                in_quotes: false,
            }
        }),
{
    let written = encoded_arg_zero(name, force_quotes);
    let s = written + post;
    let none = Seq::<u16>::empty();
    let end = written.len() as int;
    assert(none + name.subrange(0, name.len() as int) =~= name);
    if needs_quotes(name, force_quotes) {
        let opening = seq![QUOTE];
        let tail = seq![QUOTE] + post;
        assert(s =~= opening + name + tail);
        lemma_scan_name(opening, name, 0, tail, none, true);
        assert(executable_scan(s, end - 1, name, true) == executable_scan(s, end, name, false));
    } else {
        lemma_scan_name(none, name, 0, post, none, false);
    }
}

/// A command line that is written as the name of an executable, one space,
/// and a list of values, and is then split with the first token read under
/// the executable-name rule, gives the name and the values back, in order.
///
/// This holds of every name without a quote, which are the names that can
/// be written, and of every list of values that `lemma_round_trip` speaks
/// of.
pub proof fn lemma_round_trip_with_arg_zero(
    name: Seq<u16>,
    values: Seq<Seq<u16>>,
    force_quotes: bool,
)
    requires
        !name.contains(QUOTE),
        forall|i: int| 0 <= i < values.len() ==> !(#[trigger] values[i]).contains(NUL),
        forall|i: int| 0 <= i < values.len() ==> reads_back(#[trigger] values[i], force_quotes),
        values.len() > 0 ==> values.last().len() > 0,
    ensures
        token_texts(
            tokenize(
                encoded_arg_zero(name, force_quotes) + seq![SPACE] + encoded_args(
                    values,
                    force_quotes,
                    false,
                ),
                true,
            ),
        ) == seq![name] + values,
{
    let written = encoded_arg_zero(name, force_quotes);
    let list = encoded_args(values, force_quotes, false);
    let s = written + seq![SPACE] + list;
    assert(s =~= written + (seq![SPACE] + list));
    lemma_scan_arg_zero(name, force_quotes, seq![SPACE] + list);
    if values.len() >= 2 {
        lemma_encoded_args_front(values, force_quotes, false);
    }
    lemma_tokens_of_encoded(written + seq![SPACE], values, force_quotes);
}

} // verus!
