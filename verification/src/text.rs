//! Text helpers shared by the parsers: line splitting, prefix stripping,
//! and small verified utilities over strings.

use vstd::prelude::*;

verus! {

/// `s` begins with `p`.
pub open spec fn spec_starts_with(s: Seq<char>, p: Seq<char>) -> bool {
    p.len() <= s.len() && s.subrange(0, p.len() as int) == p
}

/// Index of the first newline in `s`, or `s.len()` if there is none.
pub open spec fn first_newline(s: Seq<char>) -> nat
    decreases s.len(),
{
    if s.len() == 0 {
        0
    } else if s.first() == '\n' {
        0
    } else {
        1 + first_newline(s.drop_first())
    }
}

/// `line` without a trailing carriage return, if it carries one.
pub open spec fn strip_trailing_cr(line: Seq<char>) -> Seq<char> {
    if line.len() > 0 && line.last() == '\r' {
        line.drop_last()
    } else {
        line
    }
}

/// The lines of `s`: pieces cut at each newline, a carriage return directly
/// before a newline removed, and no empty piece after a final newline.
pub open spec fn spec_lines(s: Seq<char>) -> Seq<Seq<char>>
    decreases s.len(),
{
    if s.len() == 0 {
        Seq::empty()
    } else {
        let cut = first_newline(s) as int;
        if cut < s.len() {
            seq![strip_trailing_cr(s.subrange(0, cut))] + spec_lines(
                s.subrange(cut + 1, s.len() as int),
            )
        } else {
            seq![s]
        }
    }
}

/// The elements of `lines` that are not empty, in order.
pub open spec fn spec_non_blank(lines: Seq<Seq<char>>) -> Seq<Seq<char>>
    decreases lines.len(),
{
    if lines.len() == 0 {
        Seq::empty()
    } else if lines.first().len() > 0 {
        seq![lines.first()] + spec_non_blank(lines.drop_first())
    } else {
        spec_non_blank(lines.drop_first())
    }
}

/// Appending one line extends the non-blank selection by that line exactly
/// when the line is not empty.
pub proof fn lemma_non_blank_push(lines: Seq<Seq<char>>, line: Seq<char>)
    ensures
        spec_non_blank(lines.push(line)) == if line.len() > 0 {
            spec_non_blank(lines).push(line)
        } else {
            spec_non_blank(lines)
        },
    decreases lines.len(),
{
    let pushed = lines.push(line);
    if lines.len() == 0 {
        assert(pushed.first() == line);
        assert(pushed.drop_first() =~= Seq::<Seq<char>>::empty());
        assert(spec_non_blank(pushed.drop_first()) =~= Seq::<Seq<char>>::empty());
        if line.len() > 0 {
            assert(spec_non_blank(pushed) =~= seq![line]);
            assert(spec_non_blank(lines).push(line) =~= seq![line]);
        } else {
            assert(spec_non_blank(pushed) =~= Seq::<Seq<char>>::empty());
            assert(spec_non_blank(lines) =~= Seq::<Seq<char>>::empty());
        }
    } else {
        assert(pushed.first() == lines.first());
        assert(pushed.drop_first() =~= lines.drop_first().push(line));
        lemma_non_blank_push(lines.drop_first(), line);
        if line.len() > 0 {
            if lines.first().len() > 0 {
                assert(seq![lines.first()] + spec_non_blank(lines.drop_first()).push(line) =~= (
                seq![lines.first()] + spec_non_blank(lines.drop_first())).push(line));
            }
        }
    }
}

/// Relies on `str::strip_prefix`: the call returns `Some(tail)`, with
/// `prefix` followed by `tail` being all of `s`, exactly when `s` begins
/// with `prefix`.
#[verifier::external_body]
pub fn strip_prefix_of<'a>(s: &'a str, prefix: &str) -> (r: Option<&'a str>)
    ensures
        r matches Some(tail) ==> spec_starts_with(s@, prefix@) && tail@ == s@.skip(
            prefix@.len() as int,
        ),
        r is None ==> !spec_starts_with(s@, prefix@),
{
    s.strip_prefix(prefix)
}

/// Relies on `str::lines`: pieces are cut at each newline, a carriage
/// return directly before a newline is dropped, and a final newline ends
/// the last piece without starting an empty one.  Each piece is handed
/// back as an owned string.
#[verifier::external_body]
pub fn split_lines(s: &str) -> (lines: Vec<String>)
    ensures
        lines.deep_view() == spec_lines(s@),
{
    s.lines().map(String::from).collect()
}

/// The non-empty lines of `text`, in order.
pub fn non_blank_lines(text: &str) -> (kept: Vec<String>)
    ensures
        kept.deep_view() == spec_non_blank(spec_lines(text@)),
{
    let lines = split_lines(text);
    let mut kept: Vec<String> = Vec::new();
    let mut i: usize = 0;
    while i < lines.len()
        invariant
            i <= lines.len(),
            lines.deep_view() == spec_lines(text@),
            kept.deep_view() == spec_non_blank(lines.deep_view().take(i as int)),
        decreases lines.len() - i,
    {
        proof {
            assert(lines.deep_view().take(i + 1) =~= lines.deep_view().take(i as int).push(
                lines.deep_view()[i as int],
            ));
            lemma_non_blank_push(lines.deep_view().take(i as int), lines.deep_view()[i as int]);
        }
        if !lines[i].as_str().is_empty() {
            let line = lines[i].clone();
            kept.push(line);
        }
        i = i + 1;
    }
    proof {
        assert(lines.deep_view().take(lines.deep_view().len() as int) =~= lines.deep_view());
    }
    kept
}

/// Whether `s` holds exactly the characters of `lit`.
pub fn str_eq_string(s: &String, lit: &str) -> (r: bool)
    ensures
        r == (s@ == lit@),
{
    let other = lit.to_owned();
    s.eq(&other)
}

/// A copy of `v` with every string cloned.
pub fn clone_strings(v: &Vec<String>) -> (r: Vec<String>)
    ensures
        r.deep_view() == v.deep_view(),
{
    let mut r: Vec<String> = Vec::new();
    let mut i: usize = 0;
    while i < v.len()
        invariant
            i <= v.len(),
            r.deep_view() == v.deep_view().take(i as int),
        decreases v.len() - i,
    {
        proof {
            assert(v.deep_view().take(i + 1) =~= v.deep_view().take(i as int).push(
                v.deep_view()[i as int],
            ));
        }
        r.push(v[i].clone());
        i = i + 1;
    }
    proof {
        assert(v.deep_view().take(v.deep_view().len() as int) =~= v.deep_view());
    }
    r
}

/// A copy of `v`, equal to it.
pub fn clone_opt_string(v: &Option<String>) -> (r: Option<String>)
    ensures
        r == *v,
{
    match v {
        Some(s) => Some(s.clone()),
        None => None,
    }
}

} // verus!
