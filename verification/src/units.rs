//! The four code units that the command-line rules treat specially, and
//! runs of units.

use vstd::prelude::*;

verus! {

/// `\`
pub const BACKSLASH: u16 = 0x5c;

/// `"`
pub const QUOTE: u16 = 0x22;

/// Horizontal tab.
pub const TAB: u16 = 0x09;

/// Space.
pub const SPACE: u16 = 0x20;

/// The terminator of a wide string; no argument may hold it.
pub const NUL: u16 = 0;

/// Space and tab separate arguments outside quotes.
pub open spec fn is_separator(w: u16) -> bool {
    w == SPACE || w == TAB
}

/// Whether `w` is a space or a tab.
pub fn is_space_or_tab(w: u16) -> (b: bool)
    ensures
        b == is_separator(w),
{
    w == SPACE || w == TAB
}

/// Whether `w` is a backslash.
pub fn is_backslash(w: u16) -> (b: bool)
    ensures
        b == (w == BACKSLASH),
{
    w == BACKSLASH
}

/// The first index at or after `i` whose unit does not satisfy `p`, or the
/// length of `s` if there is none. For `i` outside `s` this is `i` itself.
pub open spec fn run_end(s: Seq<u16>, i: int, p: spec_fn(u16) -> bool) -> int
    decreases s.len() - i,
{
    if 0 <= i < s.len() && p(s[i]) {
        run_end(s, i + 1, p)
    } else {
        i
    }
}

/// The end of the run of backslashes that begins at `i`.
pub open spec fn backslashes_end(s: Seq<u16>, i: int) -> int {
    run_end(s, i, |w: u16| w == BACKSLASH)
}

/// The end of the run of spaces and tabs that begins at `i`.
pub open spec fn separators_end(s: Seq<u16>, i: int) -> int {
    run_end(s, i, |w: u16| w == SPACE || w == TAB)
}

/// `n` copies of `unit`.
pub open spec fn repeated(unit: u16, n: int) -> Seq<u16> {
    Seq::new(if n >= 0 { n as nat } else { 0 }, |i: int| unit)
}

/// A run that begins inside `s` ends inside `s`; every unit of it satisfies
/// `p`, and the unit after it, if there is one, does not.
pub proof fn lemma_run_end_bounds(s: Seq<u16>, i: int, p: spec_fn(u16) -> bool)
    requires
        0 <= i <= s.len(),
    ensures
        i <= run_end(s, i, p) <= s.len(),
        forall|k: int| i <= k < run_end(s, i, p) ==> p(#[trigger] s[k]),
        run_end(s, i, p) < s.len() ==> !p(s[run_end(s, i, p)]),
    decreases s.len() - i,
{
    if i < s.len() && p(s[i]) {
        lemma_run_end_bounds(s, i + 1, p);
    }
}

/// A run is found by its two ends: every unit in `[i, k)` satisfies `p`, and
/// the unit at `k`, if there is one, does not.
pub proof fn lemma_run_end_unique(s: Seq<u16>, i: int, k: int, p: spec_fn(u16) -> bool)
    requires
        0 <= i <= k <= s.len(),
        forall|j: int| i <= j < k ==> p(#[trigger] s[j]),
        k < s.len() ==> !p(s[k]),
    ensures
        run_end(s, i, p) == k,
    decreases k - i,
{
    if i < k {
        lemma_run_end_unique(s, i + 1, k, p);
    }
}

/// A copy of `units`.
pub fn copy_of(units: &[u16]) -> (copy: Vec<u16>)
    ensures
        copy@ == units@,
{
    let mut copy: Vec<u16> = Vec::new();
    copy.extend_from_slice(units);
    copy
}

/// Appends `n` copies of `unit` to `out`.
pub fn push_repeated(out: &mut Vec<u16>, unit: u16, n: usize)
    ensures
        final(out)@ == old(out)@ + repeated(unit, n as int),
{
    let mut i: usize = 0;
    while i < n
        invariant
            i <= n,
            out@ == old(out)@ + repeated(unit, i as int),
        decreases n - i,
    {
        out.push(unit);
        i += 1;
    }
}

} // verus!
