//! Reading scheme names out of the build tool's workspace listing.
//!
//! The listing is consumed line by line. A scheme line is recognised purely by
//! its indentation: exactly eight space characters before the first other
//! character. The scheme name is that line with surrounding whitespace trimmed.

use vstd::prelude::*;

verus! {

/// Number of leading spaces that marks a line of the scheme section.
pub const SCHEME_INDENT: usize = 8;

/// What `str::trim` returns for a string with these characters.
pub uninterp spec fn trim_of(s: Seq<char>) -> Seq<char>;

/// Relies on `str::trim`: leading and trailing whitespace removed, the result
/// depending on the characters alone.
#[verifier::external_body]
fn trim(s: &str) -> (r: &str)
    ensures
        r@ == trim_of(s@),
{
    s.trim()
}

/// The line begins with exactly `SCHEME_INDENT` space characters.
pub open spec fn is_scheme_line(l: Seq<char>) -> bool {
    &&& l.len() >= SCHEME_INDENT
    &&& forall|k: int| 0 <= k < SCHEME_INDENT ==> l[k] == ' '
    &&& (l.len() == SCHEME_INDENT || l[SCHEME_INDENT as int] != ' ')
}

/// The scheme a single listing line names, if it is a scheme line.
pub open spec fn scheme_in_line(l: Seq<char>) -> Option<Seq<char>> {
    if is_scheme_line(l) {
        Some(trim_of(l))
    } else {
        None
    }
}

/// The schemes named by a listing, in listing order, duplicates kept.
pub open spec fn listed_schemes(lines: Seq<Seq<char>>) -> Seq<Seq<char>> {
    lines.filter_map(|l: Seq<char>| scheme_in_line(l))
}

/// Whether the line is a scheme line: exactly eight leading spaces.
pub fn is_scheme_entry(line: &str) -> (r: bool)
    ensures
        r == is_scheme_line(line@),
{
    let n = line.unicode_len();
    if n < SCHEME_INDENT {
        return false;
    }
    let mut i: usize = 0;
    while i < SCHEME_INDENT
        invariant
            n == line@.len(),
            n >= SCHEME_INDENT,
            i <= SCHEME_INDENT,
            forall|k: int| 0 <= k < i ==> line@[k] == ' ',
        decreases SCHEME_INDENT - i,
    {
        if line.get_char(i) != ' ' {
            return false;
        }
        i = i + 1;
    }
    n == SCHEME_INDENT || line.get_char(SCHEME_INDENT) != ' '
}

/// The scheme named by one listing line, or `None` for any other line.
pub fn scheme_from_line(line: &str) -> (r: Option<String>)
    ensures
        r.is_some() == is_scheme_line(line@),
        r.is_some() ==> r.unwrap()@ == trim_of(line@),
{
    if is_scheme_entry(line) {
        Some(trim(line).to_string())
    } else {
        None
    }
}

/// The schemes named by the listing lines, in order. Lines that are not
/// scheme lines (headers, blanks, target names) are dropped.
pub fn schemes_from_listing(lines: &Vec<String>) -> (r: Vec<String>)
    ensures
        r.deep_view() == listed_schemes(lines.deep_view()),
{
    let mut out: Vec<String> = Vec::new();
    let mut i: usize = 0;
    while i < lines.len()
        invariant
            i <= lines.len(),
            out.deep_view() == listed_schemes(lines.deep_view().take(i as int)),
        decreases lines.len() - i,
    {
        let ghost before = out.deep_view();
        let ghost taken = lines.deep_view().take(i as int + 1);
        assert(taken.drop_last() =~= lines.deep_view().take(i as int));
        assert(taken.last() == lines[i as int]@);
        match scheme_from_line(lines[i].as_str()) {
            Some(s) => {
                out.push(s);
                assert(out.deep_view() =~= before.push(trim_of(lines[i as int]@)));
            },
            None => {},
        }
        i = i + 1;
    }
    assert(lines.deep_view().take(lines.len() as int) =~= lines.deep_view());
    out
}

/// Only lines with exactly eight leading spaces contribute to the scheme
/// list, each of them contributes, trimmed, and the listing order is kept:
/// the schemes are the scheme lines, in order, each trimmed.
pub proof fn lemma_listing_takes_scheme_lines(lines: Seq<Seq<char>>)
    ensures
        listed_schemes(lines) == lines.filter(|l: Seq<char>| is_scheme_line(l)).map_values(
            |l: Seq<char>| trim_of(l),
        ),
    decreases lines.len(),
{
    reveal(Seq::filter);
    let p = |l: Seq<char>| is_scheme_line(l);
    let f = |l: Seq<char>| trim_of(l);
    if lines.len() == 0 {
        assert(lines.filter(p).map_values(f) =~= Seq::<Seq<char>>::empty());
    } else {
        let rest = lines.drop_last();
        lemma_listing_takes_scheme_lines(rest);
        if is_scheme_line(lines.last()) {
            assert(lines.filter(p) == rest.filter(p).push(lines.last()));
            assert(lines.filter(p).map_values(f) =~= rest.filter(p).map_values(f).push(trim_of(lines.last())));
            assert(listed_schemes(lines) =~= listed_schemes(rest).push(trim_of(lines.last())));
        } else {
            assert(lines.filter(p) == rest.filter(p));
        }
    }
}

} // verus!
