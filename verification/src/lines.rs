//! Reading what a tool printed, line by line.

use crate::report::opt_view;
use crate::text::{
    chars_of, contains, includes, lemma_views_push, lines, matches_at, slice, split_lines,
    starts_with, string_of, trim, trimmed, views,
};
use vstd::prelude::*;

verus! {

/// The first line of `text`, or `fallback` where it has none.
pub open spec fn first_line_or(text: Seq<char>, fallback: Seq<char>) -> Seq<char> {
    if lines(text).len() > 0 {
        lines(text)[0]
    } else {
        fallback
    }
}

/// The first line of `text`, or `fallback` where it has none.
pub fn first_line(text: &str, fallback: &str) -> (r: String)
    ensures
        r@ == first_line_or(text@, fallback@),
{
    let ls = split_lines(&chars_of(text));
    if ls.len() > 0 {
        string_of(&ls[0])
    } else {
        fallback.to_owned()
    }
}

/// The first of the lines that holds `pattern`, trimmed.
pub open spec fn first_line_with(ls: Seq<Seq<char>>, pattern: Seq<char>) -> Option<Seq<char>>
    decreases ls.len(),
{
    if ls.len() == 0 {
        None
    } else if contains(ls[0], pattern) {
        Some(trim(ls[0]))
    } else {
        first_line_with(ls.drop_first(), pattern)
    }
}

/// Finds the first line that holds `pattern`, and trims it.
pub fn find_line_with(text: &str, pattern: &str) -> (r: Option<String>)
    ensures
        opt_view(r) == first_line_with(lines(text@), pattern@),
{
    let chars = chars_of(text);
    let pat = chars_of(pattern);
    let ls = split_lines(&chars);
    let mut i: usize = 0;
    let ghost all = views(ls@);
    assert(all.skip(0) =~= all);
    while i < ls.len()
        invariant
            i <= ls.len(),
            all == views(ls@),
            all == lines(text@),
            pat@ == pattern@,
            first_line_with(all, pat@) == first_line_with(all.skip(i as int), pat@),
        decreases ls.len() - i,
    {
        if includes(&ls[i], &pat) {
            let t = trimmed(&ls[i]);
            let found = string_of(&t);
            return Some(found);
        }
        assert(all.skip(i as int).drop_first() =~= all.skip(i + 1));
        i += 1;
    }
    None
}

/// Whether `pattern` stands somewhere in `text`.
pub fn str_contains(text: &str, pattern: &str) -> (r: bool)
    ensures
        r == contains(text@, pattern@),
{
    includes(&chars_of(text), &chars_of(pattern))
}

/// The first of the lines that begins with `prefix`.
pub open spec fn first_line_starting(ls: Seq<Seq<char>>, prefix: Seq<char>) -> Option<Seq<char>>
    decreases ls.len(),
{
    if ls.len() == 0 {
        None
    } else if starts_with(ls[0], prefix) {
        Some(ls[0])
    } else {
        first_line_starting(ls.drop_first(), prefix)
    }
}

/// The lines that follow the first line that holds `heading`; none where
/// no line holds it.
pub open spec fn after_heading(ls: Seq<Seq<char>>, heading: Seq<char>) -> Seq<Seq<char>>
    decreases ls.len(),
{
    if ls.len() == 0 {
        Seq::empty()
    } else if contains(ls[0], heading) {
        ls.drop_first()
    } else {
        after_heading(ls.drop_first(), heading)
    }
}

/// The lines at the start of `ls` up to, not including, the first that is
/// empty or holds `stop`.
pub open spec fn block(ls: Seq<Seq<char>>, stop: Seq<char>) -> Seq<Seq<char>>
    decreases ls.len(),
{
    if ls.len() == 0 || ls[0].len() == 0 || contains(ls[0], stop) {
        Seq::empty()
    } else {
        seq![ls[0]] + block(ls.drop_first(), stop)
    }
}

/// The first `n` of the lines, or all of them where they are fewer.
pub open spec fn first_lines(ls: Seq<Seq<char>>, n: nat) -> Seq<Seq<char>> {
    if ls.len() <= n {
        ls
    } else {
        ls.take(n as int)
    }
}

/// Finds the first line of `text` that begins with `prefix`.
pub fn find_line_starting(text: &str, prefix: &str) -> (r: Option<Vec<char>>)
    ensures
        match r {
            Some(l) => first_line_starting(lines(text@), prefix@) == Some(l@),
            None => first_line_starting(lines(text@), prefix@) is None,
        },
{
    let ls = split_lines(&chars_of(text));
    let pat = chars_of(prefix);
    let ghost all = views(ls@);
    assert(all.skip(0) =~= all);
    let mut i: usize = 0;
    while i < ls.len()
        invariant
            i <= ls.len(),
            all == views(ls@),
            all == lines(text@),
            pat@ == prefix@,
            first_line_starting(all, pat@) == first_line_starting(all.skip(i as int), pat@),
        decreases ls.len() - i,
    {
        if matches_at(&ls[i], &pat, 0) {
            return Some(slice(&ls[i], 0, ls[i].len()));
        }
        assert(all.skip(i as int).drop_first() =~= all.skip(i + 1));
        i += 1;
    }
    None
}

/// The block of lines of `text` that follows the first line holding
/// `heading` and ends before the first line that is empty or holds `stop`.
pub fn block_after(text: &str, heading: &str, stop: &str) -> (r: Vec<String>)
    ensures
        views(r@) == block(after_heading(lines(text@), heading@), stop@),
{
    let ls = split_lines(&chars_of(text));
    let head = chars_of(heading);
    let end = chars_of(stop);
    let ghost all = views(ls@);
    assert(all.skip(0) =~= all);
    let mut i: usize = 0;
    let mut found = false;
    while i < ls.len() && !found
        invariant
            i <= ls.len(),
            all == views(ls@),
            head@ == heading@,
            !found ==> after_heading(all, head@) == after_heading(all.skip(i as int), head@),
            found ==> after_heading(all, head@) == all.skip(i as int),
        decreases ls.len() - i,
    {
        assert(all.skip(i as int).drop_first() =~= all.skip(i + 1));
        if includes(&ls[i], &head) {
            found = true;
        }
        i += 1;
    }
    let ghost rest = all.skip(i as int);
    let mut out: Vec<String> = Vec::new();
    let start = i;
    while i < ls.len() && ls[i].len() > 0 && !includes(&ls[i], &end)
        invariant
            start <= i <= ls.len(),
            all == views(ls@),
            rest == all.skip(start as int),
            end@ == stop@,
            block(rest, end@) == views(out@) + block(all.skip(i as int), end@),
        decreases ls.len() - i,
    {
        let line = string_of(&ls[i]);
        proof {
            let here = all.skip(i as int);
            assert(here.drop_first() =~= all.skip(i + 1));
        }
        out.push(line);
        i += 1;
    }
    out
}

/// The first `n` lines of `text`.
pub fn take_lines(text: &str, n: usize) -> (r: Vec<String>)
    ensures
        views(r@) == first_lines(lines(text@), n as nat),
{
    let ls = split_lines(&chars_of(text));
    let ghost all = views(ls@);
    let limit = if ls.len() <= n {
        ls.len()
    } else {
        n
    };
    let mut out: Vec<String> = Vec::new();
    let mut i: usize = 0;
    while i < limit
        invariant
            i <= limit <= ls.len(),
            all == views(ls@),
            views(out@) == all.take(i as int),
        decreases limit - i,
    {
        let line = string_of(&ls[i]);
        proof {
            lemma_views_push(out@, line);
        }
        out.push(line);
        i += 1;
    }
    out
}

/// How many lines `text` has.
pub fn count_lines(text: &str) -> (r: usize)
    ensures
        r == lines(text@).len(),
{
    let ls = split_lines(&chars_of(text));
    ls.len()
}

} // verus!
