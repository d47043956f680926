//! The two positional inputs of a run: the workspace reference and an
//! optional comma-separated list of scheme-name prefixes.

use vstd::prelude::*;

verus! {

/// The character that separates patterns in the pattern argument.
pub const PATTERN_SEPARATOR: char = ',';

/// The pieces of `s` between separators, left to right. A string without a
/// separator is one piece; an empty string is one empty piece.
pub open spec fn split_patterns(s: Seq<char>) -> Seq<Seq<char>>
    decreases s.len(),
{
    if s.len() == 0 {
        seq![Seq::empty()]
    } else {
        let parts = split_patterns(s.drop_last());
        if s.last() == PATTERN_SEPARATOR {
            parts.push(Seq::empty())
        } else {
            parts.update(parts.len() - 1, parts.last().push(s.last()))
        }
    }
}

proof fn lemma_split_nonempty(s: Seq<char>)
    ensures
        split_patterns(s).len() >= 1,
    decreases s.len(),
{
    if s.len() > 0 {
        lemma_split_nonempty(s.drop_last());
    }
}

/// Reading one more character: a separator opens a new empty piece, any
/// other character extends the open piece, which began at `start`.
proof fn lemma_split_step(s: Seq<char>, start: int, i: int)
    requires
        0 <= start <= i < s.len(),
        split_patterns(s.take(i)).last() == s.subrange(start, i),
    ensures
        s[i] == PATTERN_SEPARATOR ==> split_patterns(s.take(i + 1)) == split_patterns(s.take(i)).push(Seq::empty()),
        s[i] != PATTERN_SEPARATOR ==> split_patterns(s.take(i + 1)) == split_patterns(s.take(i)).update(
            split_patterns(s.take(i)).len() - 1,
            s.subrange(start, i + 1),
        ),
{
    let t = s.take(i + 1);
    assert(t.drop_last() =~= s.take(i));
    assert(t.last() == s[i]);
    assert(s.subrange(start, i).push(s[i]) =~= s.subrange(start, i + 1));
}

/// The patterns of a comma-separated pattern argument, in order.
pub fn parse_patterns(arg: &str) -> (r: Vec<String>)
    ensures
        r.deep_view() == split_patterns(arg@),
{
    let n = arg.unicode_len();
    let mut parts: Vec<String> = Vec::new();
    let mut start: usize = 0;
    let mut i: usize = 0;
    proof {
        assert(arg@.take(0) =~= Seq::<char>::empty());
        assert(arg@.subrange(0, 0) =~= Seq::<char>::empty());
    }
    while i < n
        invariant
            n == arg@.len(),
            start <= i <= n,
            parts.deep_view().push(arg@.subrange(start as int, i as int)) == split_patterns(arg@.take(i as int)),
        decreases n - i,
    {
        let ghost cur = split_patterns(arg@.take(i as int));
        proof {
            lemma_split_nonempty(arg@.take(i as int));
            assert(cur.last() == arg@.subrange(start as int, i as int));
            lemma_split_step(arg@, start as int, i as int);
        }
        if arg.get_char(i) == PATTERN_SEPARATOR {
            let piece = arg.substring_char(start, i);
            parts.push(piece.to_string());
            start = i + 1;
            assert(arg@.subrange(start as int, i as int + 1) =~= Seq::<char>::empty());
            assert(parts.deep_view().push(arg@.subrange(start as int, i as int + 1)) =~= cur.push(Seq::empty()));
        } else {
            assert(parts.deep_view().push(arg@.subrange(start as int, i as int + 1)) =~= cur.update(
                cur.len() - 1,
                arg@.subrange(start as int, i as int + 1),
            ));
        }
        i = i + 1;
    }
    let last = arg.substring_char(start, n);
    parts.push(last.to_string());
    assert(arg@.take(n as int) =~= arg@);
    parts
}

/// A run's inputs.
pub struct Invocation {
    /// The workspace reference handed to every invocation of the build tool.
    pub workspace: String,
    /// The scheme-name prefixes; `None` selects every scheme.
    pub patterns: Option<Vec<String>>,
}

/// Why the arguments do not describe a run.
#[derive(Debug, PartialEq, Eq, Structural)]
pub enum ArgError {
    /// No workspace reference was given.
    MissingWorkspace,
}

impl ArgError {
    /// A one-line description for the user.
    pub fn message(&self) -> (r: &'static str)
        ensures
            r@ == "Missing workspace argument"@,
    {
        "Missing workspace argument"
    }
}

/// Reads a run's inputs from the process arguments (the program name first):
/// the workspace reference, then an optional pattern list.
pub fn parse_args(args: &Vec<String>) -> (r: Result<Invocation, ArgError>)
    ensures
        r.is_err() <==> args.len() < 2,
        r.is_err() ==> r == Err::<Invocation, ArgError>(ArgError::MissingWorkspace),
        r.is_ok() ==> r.unwrap().workspace@ == args[1]@,
        r.is_ok() ==> r.unwrap().patterns.deep_view() == (if args.len() > 2 {
            Some(split_patterns(args[2]@))
        } else {
            None
        }),
{
    if args.len() < 2 {
        return Err(ArgError::MissingWorkspace);
    }
    let workspace = args[1].clone();
    let patterns = if args.len() > 2 {
        Some(parse_patterns(args[2].as_str()))
    } else {
        None
    };
    Ok(Invocation { workspace, patterns })
}

} // verus!
