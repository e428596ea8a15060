//! Scripted playback used in test mode.
//!
//! At startup the fixed corpus text is parsed into an ordered list of
//! transcript lines: each non-blank source line must carry one of the two
//! line tags, blank lines are skipped.  While test mode is active one line
//! is emitted per timer tick, cycling the list forever; which line a tick
//! emits is a function of the corpus and the number of ticks so far alone.

use vstd::prelude::*;
use vstd::arithmetic::div_mod::{lemma_add_mod_noop, lemma_mod_add_multiples_vanish,
    lemma_mod_bound, lemma_mod_self_0, lemma_small_mod};
use crate::text::{lemma_non_blank_push, spec_lines, spec_non_blank, split_lines};
use crate::transcript::{clone_line, spec_parse_line, Line};

verus! {

/// How every line of a corpus reads: `Some` of the parses of all lines, in
/// order, or `None` as soon as one line carries no tag.
pub open spec fn spec_parse_all(lines: Seq<Seq<char>>) -> Option<Seq<(bool, Seq<char>)>>
    decreases lines.len(),
{
    if lines.len() == 0 {
        Some(Seq::empty())
    } else {
        match spec_parse_line(lines.first()) {
            Some(p) => match spec_parse_all(lines.drop_first()) {
                Some(rest) => Some(seq![p] + rest),
                None => None,
            },
            None => None,
        }
    }
}

/// Appending one line to a run of parsed lines parses it too, and any
/// failure stays a failure.
pub proof fn lemma_parse_all_push(lines: Seq<Seq<char>>, line: Seq<char>)
    ensures
        spec_parse_line(line) is None ==> spec_parse_all(lines.push(line)) is None,
        spec_parse_all(lines) is None ==> spec_parse_all(lines.push(line)) is None,
        spec_parse_all(lines) is Some && spec_parse_line(line) is Some ==> spec_parse_all(
            lines.push(line),
        ) == Some((spec_parse_all(lines)->Some_0).push(spec_parse_line(line)->Some_0)),
    decreases lines.len(),
{
    let pushed = lines.push(line);
    if lines.len() == 0 {
        assert(pushed.first() == line);
        assert(pushed.drop_first() =~= Seq::<Seq<char>>::empty());
        if let Some(p) = spec_parse_line(line) {
            assert(seq![p] + Seq::<(bool, Seq<char>)>::empty() =~= Seq::<(
                bool,
                Seq<char>,
            )>::empty().push(p));
            assert(spec_parse_all(Seq::<Seq<char>>::empty()) == Some(Seq::<(
                bool,
                Seq<char>,
            )>::empty()));
            assert(spec_parse_all(pushed) == Some(seq![p] + Seq::<(bool, Seq<char>)>::empty()));
            assert(spec_parse_all(pushed) == Some(Seq::<(bool, Seq<char>)>::empty().push(p)));
        }
    } else {
        assert(pushed.first() == lines.first());
        assert(pushed.drop_first() =~= lines.drop_first().push(line));
        lemma_parse_all_push(lines.drop_first(), line);
        if let Some(head) = spec_parse_line(lines.first()) {
            if let Some(rest) = spec_parse_all(lines.drop_first()) {
                if let Some(p) = spec_parse_line(line) {
                    assert(spec_parse_all(lines) == Some(seq![head] + rest));
                    assert(spec_parse_all(pushed) == Some(seq![head] + rest.push(p)));
                    assert(seq![head] + rest.push(p) =~= (seq![head] + rest).push(p));
                    assert(spec_parse_all(pushed) == Some((seq![head] + rest).push(p)));
                }
            }
        }
    }
}

/// Once some prefix of the corpus fails to parse, the whole corpus does.
proof fn lemma_corpus_none_extends(lines: Seq<Seq<char>>, j: int)
    requires
        0 <= j <= lines.len(),
        spec_parse_all(spec_non_blank(lines.take(j))) is None,
    ensures
        spec_parse_all(spec_non_blank(lines)) is None,
    decreases lines.len() - j,
{
    if j < lines.len() {
        assert(lines.take(j + 1) =~= lines.take(j).push(lines[j]));
        lemma_non_blank_push(lines.take(j), lines[j]);
        if lines[j].len() > 0 {
            lemma_parse_all_push(spec_non_blank(lines.take(j)), lines[j]);
        }
        lemma_corpus_none_extends(lines, j + 1);
    } else {
        assert(lines.take(lines.len() as int) =~= lines);
    }
}

/// Some non-blank line of the corpus text carries no line tag.
#[derive(Debug, Clone, Copy, PartialEq, Eq, Structural)]
pub struct CorpusError;

/// Parse corpus text into the ordered list of scripted lines: blank lines
/// are skipped and every other line must carry a line tag, which picks the
/// variant, the rest of the line being its text.
pub fn parse_corpus(text: &str) -> (r: Result<Vec<Line>, CorpusError>)
    ensures
        r matches Ok(corpus) ==> spec_parse_all(spec_non_blank(spec_lines(text@))) matches Some(
            ps,
        ) && corpus@.len() == ps.len() && forall|k: int|
            0 <= k < ps.len() ==> corpus@[k].is_interim() == ps[k].0 && corpus@[k].text()
                == ps[k].1,
        r is Err <==> spec_parse_all(spec_non_blank(spec_lines(text@))) is None,
{
    let lines = split_lines(text);
    let mut corpus: Vec<Line> = Vec::new();
    let mut i: usize = 0;
    while i < lines.len()
        invariant
            i <= lines.len(),
            lines.deep_view() == spec_lines(text@),
            spec_parse_all(spec_non_blank(lines.deep_view().take(i as int))) matches Some(ps)
                && corpus@.len() == ps.len() && forall|k: int|
                0 <= k < ps.len() ==> corpus@[k].is_interim() == ps[k].0 && corpus@[k].text()
                    == ps[k].1,
        decreases lines.len() - i,
    {
        let ghost prefix = lines.deep_view().take(i as int);
        let ghost this_line = lines.deep_view()[i as int];
        proof {
            assert(lines.deep_view().take(i + 1) =~= prefix.push(this_line));
            lemma_non_blank_push(prefix, this_line);
            if this_line.len() > 0 {
                lemma_parse_all_push(spec_non_blank(prefix), this_line);
            }
        }
        if !lines[i].as_str().is_empty() {
            match Line::from_str(lines[i].as_str()) {
                Ok(line) => corpus.push(line),
                Err(_) => {
                    proof {
                        lemma_corpus_none_extends(lines.deep_view(), i + 1);
                    }
                    return Err(CorpusError);
                },
            }
        }
        i = i + 1;
    }
    proof {
        assert(lines.deep_view().take(lines.deep_view().len() as int) =~= lines.deep_view());
    }
    Ok(corpus)
}

/// The line emitted at tick `k` of a playback of `corpus`: the list is
/// cycled forever, so the choice depends on the corpus and the tick count
/// alone.
pub open spec fn scripted_line(corpus: Seq<Line>, k: nat) -> Line
    recommends
        corpus.len() > 0,
{
    corpus[(k % corpus.len()) as int]
}

/// Playback cycles: after one full pass over the corpus the same line
/// comes up again.
pub proof fn lemma_playback_wraps(corpus: Seq<Line>, k: nat)
    requires
        corpus.len() > 0,
    ensures
        scripted_line(corpus, k + corpus.len()) == scripted_line(corpus, k),
{
    lemma_mod_add_multiples_vanish(k as int, corpus.len() as int);
}

/// Cycles a fixed list of scripted lines, one per timer tick.
pub struct TestPlayback {
    lines: Vec<Line>,
    next: usize,
    ticks: Ghost<nat>,
}

impl TestPlayback {
    /// The scripted lines, in corpus order.
    pub closed spec fn corpus(&self) -> Seq<Line> {
        self.lines@
    }

    /// How many lines have been emitted so far.
    pub closed spec fn ticks(&self) -> nat {
        self.ticks@
    }

    /// The engine's position matches its tick count.
    pub closed spec fn wf(&self) -> bool {
        &&& self.lines@.len() > 0
        &&& self.next < self.lines@.len()
        &&& self.next as nat == self.ticks@ % self.lines@.len()
    }

    /// A playback of `lines` that has not emitted anything yet.
    pub fn new(lines: Vec<Line>) -> (p: TestPlayback)
        requires
            lines@.len() > 0,
        ensures
            p.wf(),
            p.corpus() == lines@,
            p.ticks() == 0,
    {
        let p = TestPlayback { lines, next: 0, ticks: Ghost(0) };
        proof {
            lemma_small_mod(0, p.lines@.len());
        }
        p
    }

    /// Emit the next scripted line and advance, wrapping to the start after
    /// the last line.
    pub fn tick(&mut self) -> (line: Line)
        requires
            old(self).wf(),
        ensures
            final(self).wf(),
            final(self).corpus() == old(self).corpus(),
            final(self).ticks() == old(self).ticks() + 1,
            line == scripted_line(old(self).corpus(), old(self).ticks()),
    {
        let ghost t = self.ticks@;
        let ghost n = self.lines@.len();
        let line = clone_line(&self.lines[self.next]);
        let count = self.lines.len();
        if self.next + 1 == count {
            self.next = 0;
        } else {
            self.next = self.next + 1;
        }
        self.ticks = Ghost(self.ticks@ + 1);
        proof {
            lemma_add_mod_noop(t as int, 1int, n as int);
            if n == 1 {
                lemma_mod_bound(1int, 1int);
                lemma_mod_bound((t + 1) as int, 1int);
            } else {
                lemma_small_mod(1, n);
                if t % n + 1 == n {
                    lemma_mod_self_0(n as int);
                } else {
                    lemma_small_mod((t % n + 1) as nat, n);
                }
            }
        }
        line
    }
}

} // verus!
