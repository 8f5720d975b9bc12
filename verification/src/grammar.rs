//! What a command line means: the arguments that a buffer of code units
//! splits into, stated as functions on sequences.
//!
//! A buffer is read one token at a time. The first token may be read under
//! the executable-name rule, in which a quote only switches quote mode and
//! nothing escapes anything. Every other token is read under the general
//! rule, in which backslashes escape quotes and two quotes inside quotes
//! stand for one.

use vstd::prelude::*;
use crate::units::{
    backslashes_end, is_separator, lemma_run_end_bounds, repeated, separators_end, BACKSLASH, QUOTE,
    SPACE, TAB,
};

verus! {

/// One argument of a command line: its decoded units and the half-open
/// range of the buffer that it was read from.
pub struct Token {
    pub text: Seq<u16>,
    pub start: int,
    pub end: int,
}

/// Where reading one token stopped: the units decoded for it, the index of
/// the separator that ended it (the buffer's length if the buffer ended
/// first), and whether quote mode was still on.
pub struct Scan {
    pub text: Seq<u16>,
    pub end: int,
    pub in_quotes: bool,
}

/// Reads on under the executable-name rule from index `i`, with `text`
/// decoded so far for the token.
///
/// A quote switches quote mode and yields nothing. A space or tab outside
/// quotes ends the token. Every other unit, a backslash too, is taken as it
/// is.
pub open spec fn executable_scan(s: Seq<u16>, i: int, text: Seq<u16>, in_quotes: bool) -> Scan
    decreases s.len() - i,
{
    if !(0 <= i < s.len()) {
        Scan { text, end: s.len() as int, in_quotes }
    } else if s[i] == QUOTE {
        executable_scan(s, i + 1, text, !in_quotes)
    } else if is_separator(s[i]) && !in_quotes {
        Scan { text, end: i, in_quotes }
    } else {
        executable_scan(s, i + 1, text.push(s[i]), in_quotes)
    }
}

/// Reads on under the general rule from index `i`, with `text` decoded so
/// far for the token.
///
/// - A space or tab outside quotes ends the token.
/// - A run of `n` backslashes before a quote yields `n / 2` backslashes; if
///   `n` is odd the quote is taken as a unit of the token, and if `n` is
///   even the quote is read next, by the rules for quotes.
/// - A run of backslashes before anything else is taken as it is.
/// - Inside quotes, two quotes in a row yield one quote and quote mode
///   stays on; any other quote switches quote mode off, also where it is
///   the last unit of the buffer.
/// - Outside quotes, a quote switches quote mode on.
/// - Every other unit is taken as it is.
pub open spec fn general_scan(s: Seq<u16>, i: int, text: Seq<u16>, in_quotes: bool) -> Scan
    decreases s.len() - i,
{
    if !(0 <= i < s.len()) {
        Scan { text, end: s.len() as int, in_quotes }
    } else if is_separator(s[i]) && !in_quotes {
        Scan { text, end: i, in_quotes }
    } else if s[i] == BACKSLASH {
        let k = backslashes_end(s, i + 1);
        let n = k - i;
        proof {
            lemma_run_end_bounds(s, i + 1, |w: u16| w == BACKSLASH);
        }
        if k < s.len() && s[k] == QUOTE {
            if n % 2 == 1 {
                general_scan(s, k + 1, text + repeated(BACKSLASH, n / 2) + seq![QUOTE], in_quotes)
            } else {
                general_scan(s, k, text + repeated(BACKSLASH, n / 2), in_quotes)
            }
        } else {
            general_scan(s, k, text + repeated(BACKSLASH, n), in_quotes)
        }
    } else if s[i] == QUOTE {
        if in_quotes && i + 1 < s.len() && s[i + 1] == QUOTE {
            general_scan(s, i + 2, text.push(QUOTE), true)
        } else {
            general_scan(s, i + 1, text, !in_quotes)
        }
    } else {
        general_scan(s, i + 1, text.push(s[i]), in_quotes)
    }
}

/// The tokens that follow once a token that began at `start` has been read
/// up to `scan`, that token first.
///
/// A token that a separator ended is always one of them, and the next token
/// begins after the whole run of separators. A token that the end of the
/// buffer ended is one of them only if it holds a unit or quote mode is
/// still on.
pub open spec fn tokens_after(s: Seq<u16>, start: int, scan: Scan) -> Seq<Token>
    decreases s.len() - scan.end, 0nat,
{
    if !(0 <= scan.end < s.len()) {
        if scan.text.len() > 0 || scan.in_quotes {
            seq![Token { text: scan.text, start, end: s.len() as int }]
        } else {
            Seq::empty()
        }
    } else {
        proof {
            lemma_run_end_bounds(s, scan.end + 1, |w: u16| w == SPACE || w == TAB);
        }
        seq![Token { text: scan.text, start, end: scan.end }] + general_tokens(
            s,
            separators_end(s, scan.end + 1),
        )
    }
}

/// The tokens of `s` from index `start` on, all read under the general
/// rule. A separator at `start` itself ends an empty token.
pub open spec fn general_tokens(s: Seq<u16>, start: int) -> Seq<Token>
    decreases s.len() - start, 1nat,
{
    if !(0 <= start <= s.len()) {
        Seq::empty()
    } else {
        proof {
            lemma_general_scan_end(s, start, Seq::empty(), false);
        }
        tokens_after(s, start, general_scan(s, start, Seq::empty(), false))
    }
}

/// The arguments of the command line `s`.
///
/// An empty buffer has none. With `first_special` the first token is read
/// under the executable-name rule and is always an argument, even if it is
/// empty; the separators after it are passed over. All other tokens are
/// read under the general rule.
pub open spec fn tokenize(s: Seq<u16>, first_special: bool) -> Seq<Token> {
    if s.len() == 0 {
        Seq::empty()
    } else if first_special {
        let scan = executable_scan(s, 0, Seq::empty(), false);
        seq![Token { text: scan.text, start: 0, end: scan.end }] + general_tokens(
            s,
            separators_end(s, scan.end + 1),
        )
    } else {
        general_tokens(s, 0)
    }
}

/// The units of `cmd_line` after the argument `arg` and the separator that
/// ended it.
pub open spec fn rest_after(cmd_line: Seq<u16>, arg: Token) -> Seq<u16> {
    if arg.end + 1 < cmd_line.len() {
        cmd_line.subrange(arg.end + 1, cmd_line.len() as int)
    } else {
        Seq::empty()
    }
}

/// The decoded units of each token, in order.
pub open spec fn token_texts(tokens: Seq<Token>) -> Seq<Seq<u16>> {
    Seq::new(tokens.len(), |i: int| tokens[i].text)
}

/// Reading a token never goes back: it stops at or after the index where it
/// was taken up, and within the buffer.
pub proof fn lemma_general_scan_end(s: Seq<u16>, i: int, text: Seq<u16>, in_quotes: bool)
    requires
        0 <= i <= s.len(),
    ensures
        i <= general_scan(s, i, text, in_quotes).end <= s.len(),
    decreases s.len() - i,
{
    if i < s.len() && !(is_separator(s[i]) && !in_quotes) {
        if s[i] == BACKSLASH {
            let k = backslashes_end(s, i + 1);
            let n = k - i;
            lemma_run_end_bounds(s, i + 1, |w: u16| w == BACKSLASH);
            if k < s.len() && s[k] == QUOTE {
                if n % 2 == 1 {
                    lemma_general_scan_end(
                        s,
                        k + 1,
                        text + repeated(BACKSLASH, n / 2) + seq![QUOTE],
                        in_quotes,
                    );
                } else {
                    lemma_general_scan_end(s, k, text + repeated(BACKSLASH, n / 2), in_quotes);
                }
            } else {
                lemma_general_scan_end(s, k, text + repeated(BACKSLASH, n), in_quotes);
            }
        } else if s[i] == QUOTE {
            if in_quotes && i + 1 < s.len() && s[i + 1] == QUOTE {
                lemma_general_scan_end(s, i + 2, text.push(QUOTE), true);
            } else {
                lemma_general_scan_end(s, i + 1, text, !in_quotes);
            }
        } else {
            lemma_general_scan_end(s, i + 1, text.push(s[i]), in_quotes);
        }
    }
}

/// Reading the first token stops within the buffer.
proof fn lemma_executable_scan_end(s: Seq<u16>, i: int, text: Seq<u16>, in_quotes: bool)
    requires
        0 <= i <= s.len(),
    ensures
        i <= executable_scan(s, i, text, in_quotes).end <= s.len(),
    decreases s.len() - i,
{
    if i < s.len() {
        if s[i] == QUOTE {
            lemma_executable_scan_end(s, i + 1, text, !in_quotes);
        } else if in_quotes || !is_separator(s[i]) {
            lemma_executable_scan_end(s, i + 1, text.push(s[i]), in_quotes);
        }
    }
}

/// Whether the ranges of `tokens` lie in the buffer from `start` to `len`,
/// one after the other, with at least one unit between neighbours.
pub open spec fn ranges_in_order(tokens: Seq<Token>, start: int, len: int) -> bool {
    &&& forall|i: int|
        0 <= i < tokens.len() ==> start <= (#[trigger] tokens[i]).start <= tokens[i].end <= len
    &&& forall|i: int, j: int|
        0 <= i < j < tokens.len() ==> (#[trigger] tokens[i]).end < (#[trigger] tokens[j]).start
}

/// The tokens that are read from `start` on lie at or after `start`, in
/// order.
proof fn lemma_general_ranges(s: Seq<u16>, start: int)
    requires
        0 <= start <= s.len(),
    ensures
        ranges_in_order(general_tokens(s, start), start, s.len() as int),
    decreases s.len() - start,
{
    let scan = general_scan(s, start, Seq::empty(), false);
    lemma_general_scan_end(s, start, Seq::empty(), false);
    if scan.end < s.len() {
        let next = separators_end(s, scan.end + 1);
        lemma_run_end_bounds(s, scan.end + 1, |w: u16| w == SPACE || w == TAB);
        lemma_general_ranges(s, next);
    }
}

/// The ranges of the arguments of a command line lie inside it, one after
/// the other, and at least one unit lies between two neighbours.
pub proof fn lemma_ranges_in_order(s: Seq<u16>, first_special: bool)
    ensures
        ranges_in_order(tokenize(s, first_special), 0, s.len() as int),
{
    if s.len() > 0 {
        if first_special {
            let scan = executable_scan(s, 0, Seq::empty(), false);
            lemma_executable_scan_end(s, 0, Seq::empty(), false);
            if scan.end < s.len() {
                lemma_run_end_bounds(s, scan.end + 1, |w: u16| w == SPACE || w == TAB);
                lemma_general_ranges(s, separators_end(s, scan.end + 1));
            }
        } else {
            lemma_general_ranges(s, 0);
        }
    }
}

} // verus!
