//! Splitting a raw command line into arguments.

use core::ops::Range;
use std::borrow::Cow;
use vstd::prelude::*;
use vstd::slice::slice_subrange;
use crate::error::CommandLineError;
use crate::grammar::{
    executable_scan, general_scan, general_tokens, rest_after, tokenize, tokens_after, Scan, Token,
};
use crate::quoting::{
    contains_separator, encoded_arg, encoded_arg_zero, encoded_args, escaped_from,
    lemma_escaped_run, needs_quotes, values_of,
};
use crate::units::{
    is_backslash, is_separator, is_space_or_tab, lemma_run_end_unique, push_repeated, repeated,
    separators_end, BACKSLASH, NUL, QUOTE, SPACE, TAB,
};

verus! {

/// One argument of a command line.
pub struct Arg<'a> {
    /// The argument's value: its units after quotes and escapes are
    /// resolved.
    pub arg: Vec<u16>,
    /// The part of the command line that the argument was read from.
    pub range: Range<usize>,
    /// The units of the command line in `range`, as they stood there.
    pub raw: &'a [u16],
    /// The argument's position in the list, from zero.
    pub number: usize,
}

impl<'a> Arg<'a> {
    /// The argument as a token: its value and its range.
    pub open spec fn token(&self) -> Token {
        Token { text: self.arg@, start: self.range.start as int, end: self.range.end as int }
    }

    /// The argument was cut out of `cmd_line` as argument number `number`:
    /// its range lies inside `cmd_line`, `raw` is that part of it, and the
    /// number is recorded.
    pub open spec fn cut_from(&self, cmd_line: Seq<u16>, number: int) -> bool {
        &&& self.range.start <= self.range.end <= cmd_line.len()
        &&& self.raw@ == cmd_line.subrange(self.range.start as int, self.range.end as int)
        &&& self.number == number
    }
}

/// The tokens of a list of arguments, in order.
pub open spec fn arg_tokens(args: Seq<Arg<'_>>) -> Seq<Token> {
    Seq::new(args.len(), |i: int| args[i].token())
}

/// Every argument of the list was cut out of `cmd_line`, under its index.
pub open spec fn all_cut_from(args: Seq<Arg<'_>>, cmd_line: Seq<u16>) -> bool {
    forall|i: int| 0 <= i < args.len() ==> (#[trigger] args[i]).cut_from(cmd_line, i)
}

/// A cursor over a command line that collects the arguments read so far and
/// the units of the argument that is being read.
struct ArgListBuilder<'a> {
    cmd_line: &'a [u16],
    cur: Vec<u16>,
    start_index: usize,
    end_index: usize,
    arg_list: Vec<Arg<'a>>,
}

impl<'a> ArgListBuilder<'a> {
    /// The argument being read begins at or before the cursor, the cursor
    /// is inside the command line, and the arguments read so far were cut
    /// out of it.
    spec fn wf(&self) -> bool {
        &&& self.start_index <= self.end_index <= self.cmd_line@.len()
        &&& all_cut_from(self.arg_list@, self.cmd_line@)
    }

    fn new(cmd_line: &'a [u16]) -> (builder: Self)
        ensures
            builder.wf(),
            builder.cmd_line@ == cmd_line@,
            builder.cur@ == Seq::<u16>::empty(),
            builder.start_index == 0,
            builder.end_index == 0,
            builder.arg_list@.len() == 0,
    {
        Self { cmd_line, cur: Vec::new(), start_index: 0, end_index: 0, arg_list: Vec::new() }
    }

    /// Ends the argument being read at index `end` and adds it to the list.
    fn push_arg(&mut self, end: usize)
        requires
            old(self).wf(),
            old(self).start_index <= end <= old(self).cmd_line@.len(),
        ensures
            final(self).wf(),
            final(self).cmd_line@ == old(self).cmd_line@,
            final(self).start_index == old(self).start_index,
            final(self).end_index == old(self).end_index,
            final(self).cur@ == Seq::<u16>::empty(),
            arg_tokens(final(self).arg_list@) == arg_tokens(old(self).arg_list@).push(
                Token { text: old(self).cur@, start: old(self).start_index as int, end: end as int },
            ),
    {
        let range = self.start_index..end;
        let mut text: Vec<u16> = Vec::new();
        core::mem::swap(&mut self.cur, &mut text);
        let number: usize = self.arg_list.len();
        let arg = Arg {
            arg: text,
            range: self.start_index..end,
            raw: slice_subrange(self.cmd_line, range.start, range.end),
            number,
        };
        self.arg_list.push(arg);
    }

    /// The unit under the cursor, if the command line has not ended.
    fn peek(&self) -> (unit: Option<u16>)
        requires
            self.wf(),
        ensures
            unit == if self.end_index < self.cmd_line@.len() {
                Some(self.cmd_line@[self.end_index as int])
            } else {
                None
            },
    {
        if self.end_index < self.cmd_line.len() {
            Some(self.cmd_line[self.end_index])
        } else {
            None
        }
    }

    /// The unit under the cursor, which then moves past it.
    fn next(&mut self) -> (unit: Option<u16>)
        requires
            old(self).wf(),
        ensures
            final(self).wf(),
            final(self).cmd_line@ == old(self).cmd_line@,
            final(self).cur == old(self).cur,
            final(self).start_index == old(self).start_index,
            final(self).arg_list == old(self).arg_list,
            unit == if old(self).end_index < old(self).cmd_line@.len() {
                Some(old(self).cmd_line@[old(self).end_index as int])
            } else {
                None
            },
            final(self).end_index == if unit is Some {
                old(self).end_index + 1
            } else {
                old(self).end_index as int
            },
    {
        let opt_w = self.peek();
        if self.end_index < self.cmd_line.len() {
            self.end_index += 1;
        }
        opt_w
    }

    /// The units of the argument being read.
    fn get_current(&mut self) -> (cur: &mut Vec<u16>)
        ensures
            *cur == old(self).cur,
            final(self).cur == *final(cur),
            final(self).cmd_line == old(self).cmd_line,
            final(self).start_index == old(self).start_index,
            final(self).end_index == old(self).end_index,
            final(self).arg_list == old(self).arg_list,
    {
        &mut self.cur
    }

    /// The next argument begins under the cursor.
    fn set_start_index(&mut self)
        requires
            old(self).wf(),
        ensures
            final(self).wf(),
            final(self).cmd_line == old(self).cmd_line,
            final(self).cur == old(self).cur,
            final(self).start_index == old(self).end_index,
            final(self).end_index == old(self).end_index,
            final(self).arg_list == old(self).arg_list,
    {
        self.start_index = self.end_index;
    }

    /// Moves the cursor on while `predicate` accepts the unit under it, and
    /// returns the number of units passed.
    fn advance_while<P: Fn(u16) -> bool>(&mut self, predicate: P) -> (counter: usize)
        requires
            old(self).wf(),
            forall|w: u16| predicate.requires((w,)),
        ensures
            final(self).wf(),
            final(self).cmd_line == old(self).cmd_line,
            final(self).cur == old(self).cur,
            final(self).start_index == old(self).start_index,
            final(self).arg_list == old(self).arg_list,
            final(self).end_index == old(self).end_index + counter,
            forall|k: int|
                old(self).end_index <= k < final(self).end_index ==> predicate.ensures(
                    (#[trigger] old(self).cmd_line@[k],),
                    true,
                ),
            final(self).end_index < old(self).cmd_line@.len() ==> predicate.ensures(
                (old(self).cmd_line@[final(self).end_index as int],),
                false,
            ),
    {
        let mut counter: usize = 0;
        while self.end_index < self.cmd_line.len()
            invariant
                self.wf(),
                self.cmd_line == old(self).cmd_line,
                self.cur == old(self).cur,
                self.start_index == old(self).start_index,
                self.arg_list == old(self).arg_list,
                self.end_index == old(self).end_index + counter,
                forall|w: u16| predicate.requires((w,)),
                forall|k: int|
                    old(self).end_index <= k < self.end_index ==> predicate.ensures(
                        (#[trigger] old(self).cmd_line@[k],),
                        true,
                    ),
            ensures
                self.wf(),
                self.cmd_line == old(self).cmd_line,
                self.cur == old(self).cur,
                self.start_index == old(self).start_index,
                self.arg_list == old(self).arg_list,
                self.end_index == old(self).end_index + counter,
                forall|k: int|
                    old(self).end_index <= k < self.end_index ==> predicate.ensures(
                        (#[trigger] old(self).cmd_line@[k],),
                        true,
                    ),
                self.end_index < old(self).cmd_line@.len() ==> predicate.ensures(
                    (old(self).cmd_line@[self.end_index as int],),
                    false,
                ),
            decreases self.cmd_line@.len() - self.end_index,
        {
            if !predicate(self.cmd_line[self.end_index]) {
                break ;
            }
            self.end_index += 1;
            counter += 1;
        }
        counter
    }

    /// The arguments read.
    fn get_arg_list(self) -> (args: Vec<Arg<'a>>)
        ensures
            args == self.arg_list,
    {
        self.arg_list
    }
}

/// The units of `cmd_line` that follow the argument `arg` and the one unit
/// after it, which is the separator that ended it. Nothing, if the command
/// line ends before that.
pub fn get_rest<'a>(cmd_line: &'a [u16], arg: &Arg<'a>) -> (rest: &'a [u16])
    ensures
        rest@ == rest_after(cmd_line@, arg.token()),
{
    if arg.range.end < cmd_line.len() && arg.range.end + 1 < cmd_line.len() {
        slice_subrange(cmd_line, arg.range.end + 1, cmd_line.len())
    } else {
        slice_subrange(cmd_line, 0, 0)
    }
}

/// Splits a command line into its arguments by the rules of the C runtime
/// on Windows.
///
/// With `handle_first_special` the first argument is read as the name of
/// the executable, in which nothing can be escaped. Every buffer splits
/// into some list of arguments; there is no malformed command line.
pub fn parse_lp_cmd_line<'a>(cmd_line: &'a [u16], handle_first_special: bool) -> (args: Vec<
    Arg<'a>,
>)
    ensures
        arg_tokens(args@) == tokenize(cmd_line@, handle_first_special),
        all_cut_from(args@, cmd_line@),
        cmd_line@.len() == 0 ==> args@.len() == 0,
{
    if cmd_line.is_empty() {
        let args: Vec<Arg<'a>> = Vec::new();
        return args;
    }
    let ghost s = cmd_line@;
    let ghost all = tokenize(s, handle_first_special);
    let mut builder = ArgListBuilder::new(cmd_line);
    let mut in_quotes = false;

    if handle_first_special {
        let mut end: usize = 0;
        loop
            invariant_except_break
                executable_scan(s, 0, Seq::empty(), false) == executable_scan(
                    s,
                    builder.end_index as int,
                    builder.cur@,
                    in_quotes,
                ),
            invariant
                builder.wf(),
                builder.cmd_line@ == s,
                builder.start_index == 0,
                builder.arg_list@.len() == 0,
            ensures
                builder.wf(),
                builder.cmd_line@ == s,
                builder.start_index == 0,
                builder.arg_list@.len() == 0,
                end <= s.len(),
                executable_scan(s, 0, Seq::empty(), false).text == builder.cur@,
                executable_scan(s, 0, Seq::empty(), false).end == end,
                builder.end_index == if end < s.len() {
                    end + 1
                } else {
                    end as int
                },
            decreases s.len() - builder.end_index,
        {
            end = builder.end_index;
            match builder.next() {
                None => {
                    break ;
                },
                Some(w) => {
                    if w == QUOTE {
                        in_quotes = !in_quotes;
                    } else if (w == SPACE || w == TAB) && !in_quotes {
                        break ;
                    } else {
                        builder.get_current().push(w);
                    }
                },
            }
        }
        builder.push_arg(end);
        let ghost first = end as int;
        builder.advance_while(is_space_or_tab);
        builder.set_start_index();
        proof {
            if first < s.len() {
                lemma_run_end_unique(
                    s,
                    first + 1,
                    builder.end_index as int,
                    |w: u16| w == SPACE || w == TAB,
                );
            }
        }
    }
    in_quotes = false;

    loop
        invariant_except_break
            all == arg_tokens(builder.arg_list@) + tokens_after(
                s,
                builder.start_index as int,
                general_scan(s, builder.end_index as int, builder.cur@, in_quotes),
            ),
        invariant
            builder.wf(),
            builder.cmd_line@ == s,
        ensures
            builder.wf(),
            builder.cmd_line@ == s,
            builder.end_index == s.len(),
            all == arg_tokens(builder.arg_list@) + tokens_after(
                s,
                builder.start_index as int,
                Scan { text: builder.cur@, end: s.len() as int, in_quotes },
            ),
        decreases s.len() - builder.end_index,
    {
        let ghost at = builder.end_index as int;
        let ghost text = builder.cur@;
        match builder.next() {
            None => {
                break ;
            },
            Some(w) => {
                if (w == SPACE || w == TAB) && !in_quotes {
                    builder.push_arg(builder.end_index - 1);
                    builder.advance_while(is_space_or_tab);
                    builder.set_start_index();
                    proof {
                        lemma_run_end_unique(
                            s,
                            at + 1,
                            builder.end_index as int,
                            |w: u16| w == SPACE || w == TAB,
                        );
                    }
                } else if w == BACKSLASH {
                    let backslash_count = builder.advance_while(is_backslash) + 1;
                    proof {
                        lemma_run_end_unique(
                            s,
                            at + 1,
                            builder.end_index as int,
                            |w: u16| w == BACKSLASH,
                        );
                    }
                    if builder.peek() == Some(QUOTE) {
                        push_repeated(builder.get_current(), BACKSLASH, backslash_count / 2);
                        if backslash_count % 2 == 1 {
                            builder.next();
                            builder.get_current().push(QUOTE);
                            assert(builder.cur@ =~= text + repeated(
                                BACKSLASH,
                                (backslash_count / 2) as int,
                            ) + seq![QUOTE]);
                        }
                    } else {
                        push_repeated(builder.get_current(), BACKSLASH, backslash_count);
                    }
                } else if w == QUOTE {
                    if in_quotes && builder.peek() == Some(QUOTE) {
                        builder.next();
                        builder.get_current().push(QUOTE);
                    } else {
                        in_quotes = !in_quotes;
                    }
                } else {
                    builder.get_current().push(w);
                }
            },
        }
    }
    if !builder.get_current().is_empty() || in_quotes {
        builder.push_arg(builder.end_index);
    }
    builder.get_arg_list()
}

/// The text of the warning that `escape_arg_zero` gives for a quoted name
/// that ends in a backslash.
pub const TRAILING_BACKSLASH_WARNING: &'static str =
    "Escaped arg zero ends with backslash and quote: \u{bb}\\\"\u{ab}.";

/// The warning that comes with the name `value` of an executable: a name
/// that is written in quotes and ends in a backslash has that backslash
/// right before the closing quote.
pub open spec fn arg_zero_warning(value: Seq<u16>, force_quotes: bool) -> Option<&'static str> {
    if needs_quotes(value, force_quotes) && value.len() > 0 && value.last() == BACKSLASH {
        Some(TRAILING_BACKSLASH_WARNING)
    } else {
        None
    }
}

/// The name of an executable as it stands at the head of a command line.
pub struct EscapedArgZero<'a> {
    /// The units to write.
    pub escaped: Cow<'a, [u16]>,
    /// Set where reading the units back may not give the name again.
    pub warning: Option<&'static str>,
}

impl<'a> EscapedArgZero<'a> {
    /// The units to write, as a sequence.
    pub open spec fn units(&self) -> Seq<u16> {
        match self.escaped {
            Cow::Borrowed(slice) => slice@,
            Cow::Owned(vec) => vec@,
        }
    }
}

/// Whether `value` holds a space or a tab.
pub fn has_separator(value: &[u16]) -> (found: bool)
    ensures
        found == contains_separator(value@),
{
    let mut i: usize = 0;
    while i < value.len()
        invariant
            i <= value.len(),
            forall|j: int| 0 <= j < i ==> !is_separator(#[trigger] value@[j]),
        decreases value.len() - i,
    {
        if is_space_or_tab(value[i]) {
            return true;
        }
        i += 1;
    }
    false
}

/// Prepares the name of an executable for the head of a command line.
///
/// The name is put between quotes if `force_quotes` is set, if it is empty
/// or if it holds a space or a tab. Nothing in it is escaped, since nothing
/// can be: a name that holds a quote is refused. A quoted name that ends in
/// a backslash comes with a warning.
pub fn escape_arg_zero<'a>(slice_utf16: &'a [u16], force_quotes: bool) -> (result: Result<
    EscapedArgZero<'a>,
    CommandLineError,
>)
    ensures
        result is Err <==> slice_utf16@.contains(QUOTE),
        match result {
            Ok(escaped) => {
                &&& escaped.units() == encoded_arg_zero(slice_utf16@, force_quotes)
                &&& escaped.warning == arg_zero_warning(slice_utf16@, force_quotes)
            },
            Err(e) => e == CommandLineError::QuoteNotAllowed,
        },
{
    let mut add_quotes: bool = force_quotes;
    let mut i: usize = 0;
    while i < slice_utf16.len()
        invariant
            i <= slice_utf16.len(),
            forall|j: int| 0 <= j < i ==> slice_utf16@[j] != QUOTE,
            add_quotes == (force_quotes || contains_separator(slice_utf16@.take(i as int))),
        decreases slice_utf16.len() - i,
    {
        let u = slice_utf16[i];
        proof {
            let seen = slice_utf16@.take(i as int);
            let next = slice_utf16@.take(i + 1);
            assert(next[i as int] == u);
            if contains_separator(next) && !is_separator(u) {
                let j = choose|j: int| 0 <= j < next.len() && is_separator(#[trigger] next[j]);
            }
        }
        if u == SPACE || u == TAB {
            add_quotes = true;
        } else if u == QUOTE {
            return Err(CommandLineError::QuoteNotAllowed);
        }
        i += 1;
    }
    if slice_utf16.is_empty() {
        add_quotes = true;
    }
    assert(slice_utf16@.take(i as int) =~= slice_utf16@);
    Ok(
        if add_quotes {
            let mut vec_utf16: Vec<u16> = Vec::new();
            vec_utf16.push(QUOTE);
            vec_utf16.extend_from_slice(slice_utf16);
            vec_utf16.push(QUOTE);
            let warning = if slice_utf16.len() > 0 && slice_utf16[slice_utf16.len() - 1]
                == BACKSLASH {
                Some(TRAILING_BACKSLASH_WARNING)
            } else {
                None
            };
            EscapedArgZero { escaped: Cow::Owned(vec_utf16), warning }
        } else {
            EscapedArgZero { escaped: Cow::Borrowed(slice_utf16), warning: None }
        },
    )
}

/// Refuses a value that holds a zero unit.
pub fn ensure_no_nuls(os_str: &[u16]) -> (result: Result<(), CommandLineError>)
    ensures
        result is Ok <==> !os_str@.contains(NUL),
        result is Err ==> result == Err::<(), CommandLineError>(CommandLineError::ContainsNul),
{
    let mut i: usize = 0;
    while i < os_str.len()
        invariant
            i <= os_str.len(),
            forall|j: int| 0 <= j < i ==> os_str@[j] != NUL,
        decreases os_str.len() - i,
    {
        if os_str[i] == NUL {
            return Err(CommandLineError::ContainsNul);
        }
        i += 1;
    }
    Ok(())
}

/// Appends the argument `arg` to the command line `cmdline`.
///
/// A raw argument is appended as it is. Any other is put between quotes if
/// `force_quotes` is set, if it is empty or if it holds a space or a tab,
/// and is escaped there; without quotes it is appended as it is. An
/// argument that holds a zero unit is refused, and `cmdline` stays as it
/// was.
pub fn append_arg(cmdline: &mut Vec<u16>, arg: &[u16], force_quotes: bool, raw: bool) -> (result:
    Result<(), CommandLineError>)
    ensures
        result is Err <==> arg@.contains(NUL),
        match result {
            Ok(_) => final(cmdline)@ == old(cmdline)@ + encoded_arg(arg@, force_quotes, raw),
            Err(e) => e == CommandLineError::ContainsNul && final(cmdline)@ == old(cmdline)@,
        },
{
    match ensure_no_nuls(arg) {
        Err(e) => {
            return Err(e);
        },
        Ok(_) => {},
    }
    let quote: bool = !raw && (force_quotes || arg.is_empty() || has_separator(arg));
    if !quote {
        cmdline.extend_from_slice(arg);
        return Ok(());
    }
    cmdline.push(QUOTE);
    let ghost value = arg@;
    let ghost base = cmdline@;
    let ghost done: Seq<u16> = Seq::empty();
    let mut backslashes: usize = 0;
    let mut i: usize = 0;
    while i < arg.len()
        invariant
            value == arg@,
            backslashes <= i <= value.len(),
            forall|j: int| i - backslashes <= j < i ==> #[trigger] value[j] == BACKSLASH,
            cmdline@ == base + done + repeated(BACKSLASH, backslashes as int),
            escaped_from(value, 0) == done + escaped_from(value, i - backslashes),
        decreases arg.len() - i,
    {
        let x = arg[i];
        if x == BACKSLASH {
            backslashes += 1;
            cmdline.push(x);
        } else {
            proof {
                lemma_escaped_run(value, i - backslashes, i as int);
            }
            if x == QUOTE {
                push_repeated(cmdline, BACKSLASH, backslashes + 1);
            }
            cmdline.push(x);
            proof {
                let run = if x == QUOTE {
                    repeated(BACKSLASH, 2 * backslashes + 1)
                } else {
                    repeated(BACKSLASH, backslashes as int)
                };
                let next = done + run + seq![x];
                done = next;
            }
            backslashes = 0;
        }
        i += 1;
    }
    proof {
        lemma_escaped_run(value, i - backslashes, i as int);
    }
    push_repeated(cmdline, BACKSLASH, backslashes);
    cmdline.push(QUOTE);
    Ok(())
}

/// Writes a list of arguments as one command line, with one space between
/// neighbours.
///
/// Each argument is written as `append_arg` writes it. If any of them holds
/// a zero unit, nothing is written.
pub fn encode(args: &[Vec<u16>], force_quotes: bool, raw: bool) -> (result: Result<
    Vec<u16>,
    CommandLineError,
>)
    ensures
        result is Err <==> exists|i: int|
            0 <= i < args@.len() && (#[trigger] args@[i])@.contains(NUL),
        match result {
            Ok(cmdline) => cmdline@ == encoded_args(values_of(args@), force_quotes, raw),
            Err(e) => e == CommandLineError::ContainsNul,
        },
{
    let mut cmdline: Vec<u16> = Vec::new();
    let ghost values = values_of(args@);
    let mut i: usize = 0;
    while i < args.len()
        invariant
            i <= args@.len(),
            values == values_of(args@),
            forall|j: int| 0 <= j < i ==> !(#[trigger] args@[j])@.contains(NUL),
            cmdline@ == encoded_args(values.take(i as int), force_quotes, raw),
        decreases args.len() - i,
    {
        if i > 0 {
            cmdline.push(SPACE);
        }
        match append_arg(&mut cmdline, args[i].as_slice(), force_quotes, raw) {
            Err(e) => {
                return Err(e);
            },
            Ok(_) => {},
        }
        proof {
            let next = values.take(i + 1);
            assert(next.drop_last() =~= values.take(i as int));
        }
        i += 1;
    }
    assert(values.take(i as int) =~= values);
    Ok(cmdline)
}

} // verus!
